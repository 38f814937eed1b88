//! The decisions of the main flow.
//!
//! The outer loop — read the sensor, publish the reading, sleep, start
//! over, leave on a shutdown signal — runs outside this library, since
//! it sleeps and waits on sockets. Every decision it takes is a
//! function here: what to log at startup, what a loop event leads to,
//! and which interval to sleep after an iteration.

use vstd::prelude::*;

use crate::configuration::Configuration;
use crate::errors::SensorError;
use crate::measurement::Measurement;
use crate::measurement::Measurements;
use crate::messages::MessageToPublish;
use crate::messages::is_state_message;
use crate::messages::measurements_to_messages_for_host;
use crate::sampler::Sampler;

verus! {

/// How much the daemon logs.
#[derive(Clone, Copy, Debug, PartialEq, Eq, Structural)]
pub enum LogLevel {
    Debug,
    Info,
}

/// The log level of a run: debug when asked for, info otherwise.
pub fn log_level_for(config: &Configuration) -> (l: LogLevel)
    ensures
        l == (if config.debug_log {
            LogLevel::Debug
        } else {
            LogLevel::Info
        }),
{
    if config.debug_log {
        LogLevel::Debug
    } else {
        LogLevel::Info
    }
}

/// What one turn of the sampling loop observed.
pub enum LoopEvent {
    /// The sensor answered with a reading.
    Reading(Measurements),
    /// The sensor failed; the loop goes on.
    SensorFailed(SensorError),
    /// A shutdown signal arrived.
    Shutdown,
}

/// What the loop does next.
pub enum LoopAction {
    /// Publish these messages, then sleep.
    PublishState(Vec<MessageToPublish>),
    /// Publish nothing this turn, just sleep.
    Skip,
    /// Disconnect and leave cleanly.
    Stop,
}

/// Turns one loop observation into the next action: a reading becomes
/// its state message, a failed read is skipped — the loop recovers —
/// and a shutdown stops the loop.
pub fn handle_loop_event(event: &LoopEvent, config: &Configuration, host: &str) -> (a: LoopAction)
    requires
        event matches LoopEvent::Reading(m) ==> m.valid(),
    ensures
        event matches LoopEvent::Reading(m) ==> (a matches LoopAction::PublishState(msgs)
            && msgs@.len() == 1 && is_state_message(msgs@[0], *m, config.mqtt_topic_base@, host@)),
        event is SensorFailed ==> a is Skip,
        event is Shutdown ==> a is Stop,
{
    match event {
        LoopEvent::Reading(m) => LoopAction::PublishState(
            measurements_to_messages_for_host(m, config, host),
        ),
        LoopEvent::SensorFailed(_) => LoopAction::Skip,
        LoopEvent::Shutdown => LoopAction::Stop,
    }
}

/// The seconds to sleep after one turn: a successful reading is
/// handed to the cadence policy, whose answer is bounded by its
/// maximum; after a failed read the previous interval stands and the
/// policy is left untouched.
pub fn interval_after<S: Sampler>(
    sampler: &mut S,
    reading: Option<Measurement>,
    current_secs: u64,
) -> (d: u64)
    requires
        old(sampler).inv(),
        reading matches Some(m) ==> m.valid(),
    ensures
        final(sampler).inv(),
        final(sampler).max_spec() == old(sampler).max_spec(),
        reading is None ==> d == current_secs && *final(sampler) == *old(sampler),
        reading matches Some(m) ==> old(sampler).next_ensures(m, *final(sampler), d) && d <= old(
            sampler,
        ).max_spec(),
{
    match reading {
        Some(m) => sampler.next(m),
        None => current_secs,
    }
}

} // verus!
