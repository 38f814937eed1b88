//! The decisions of one publish batch.
//!
//! A batch is sent with QoS 1: every message must be acknowledged by
//! the broker before the session closes. The session itself — the
//! client, its event stream, the waiting — runs outside this library;
//! the rules of when to keep driving the stream and when to disconnect
//! live here.

use vstd::prelude::*;

use crate::configuration::Configuration;

verus! {

/// The events of the client's stream that the batch logic tells apart.
#[derive(Clone, Copy, Debug, PartialEq, Eq, Structural)]
pub enum PublisherEvent {
    /// The broker acknowledged one QoS-1 publish.
    PubAckReceived,
    /// The broker accepted the connection.
    ConnAckReceived,
    /// The client sent something out.
    OutgoingSent,
    /// Anything else that arrived.
    OtherIncoming,
}

/// What to do with the session after an event.
#[derive(Clone, Copy, Debug, PartialEq, Eq, Structural)]
pub enum PublisherAction {
    /// Keep driving the event stream.
    Continue,
    /// Every message is acknowledged: disconnect cleanly.
    Disconnect,
}

/// The progress of one batch: how many publishes still wait for their
/// acknowledgement.
#[derive(Clone, Copy, Debug, PartialEq, Eq, Structural)]
pub struct PublishTracker {
    pub pending: usize,
}

impl PublishTracker {
    /// A batch of `batch_size` messages, none acknowledged yet.
    pub fn new(batch_size: usize) -> (t: PublishTracker)
        ensures
            t.pending == batch_size,
    {
        PublishTracker { pending: batch_size }
    }

    /// Whether every message of the batch is acknowledged.
    pub open spec fn done_spec(self) -> bool {
        self.pending == 0
    }

    /// Whether every message of the batch is acknowledged; an empty
    /// batch is done before any event arrives.
    pub fn done(&self) -> (r: bool)
        ensures
            r == self.done_spec(),
    {
        self.pending == 0
    }

    /// Accounts for one event of the stream: an acknowledgement
    /// settles one pending publish, and the session is told to
    /// disconnect exactly when the last one settles. Every other
    /// event leaves the count alone. An acknowledgement beyond the
    /// batch — a broker redelivery — changes nothing.
    pub fn on_event(&mut self, event: PublisherEvent) -> (a: PublisherAction)
        ensures
            event == PublisherEvent::PubAckReceived && old(self).pending > 0 ==> final(self).pending
                == old(self).pending - 1,
            event != PublisherEvent::PubAckReceived || old(self).pending == 0 ==> final(self).pending
                == old(self).pending,
            (a == PublisherAction::Disconnect) <==> (event == PublisherEvent::PubAckReceived
                && old(self).pending == 1),
    {
        match event {
            PublisherEvent::PubAckReceived => {
                if self.pending > 0 {
                    self.pending = self.pending - 1;
                    if self.pending == 0 {
                        PublisherAction::Disconnect
                    } else {
                        PublisherAction::Continue
                    }
                } else {
                    PublisherAction::Continue
                }
            },
            _ => PublisherAction::Continue,
        }
    }
}

/// The client identifier of the MQTT session:
/// `sensor-mqtt-client-<device_name>`.
pub fn client_id(config: &Configuration) -> (s: String)
    ensures
        s@ == "sensor-mqtt-client-"@ + config.device_name@,
{
    let mut s = String::new();
    s.append("sensor-mqtt-client-");
    s.append(config.device_name.as_str());
    proof {
        assert(s@ =~= "sensor-mqtt-client-"@ + config.device_name@);
    }
    s
}

} // verus!
