use sensor_mqtt::configuration::Configuration;
use sensor_mqtt::errors::SensorError;
use sensor_mqtt::fixed_period::FixedPeriodSampler;
use sensor_mqtt::measurement::Measurement;
use sensor_mqtt::measurement::Measurements;
use sensor_mqtt::orchestrator::handle_loop_event;
use sensor_mqtt::orchestrator::interval_after;
use sensor_mqtt::orchestrator::log_level_for;
use sensor_mqtt::orchestrator::LogLevel;
use sensor_mqtt::orchestrator::LoopAction;
use sensor_mqtt::orchestrator::LoopEvent;
use sensor_mqtt::text::dash_to_underscore;

#[test]
fn log_level_follows_the_debug_flag() {
    let mut cfg = Configuration::default();
    assert_eq!(LogLevel::Info, log_level_for(&cfg));
    cfg.debug_log = true;
    assert_eq!(LogLevel::Debug, log_level_for(&cfg));
}

#[test]
fn a_reading_becomes_one_state_message() {
    let cfg = Configuration::default();
    let m = Measurements::new(
        Measurement::from_milli(20_000),
        Measurement::from_milli(101_000_000),
        Measurement::from_milli(40_000),
    );
    match handle_loop_event(&LoopEvent::Reading(m), &cfg, "node1") {
        LoopAction::PublishState(msgs) => {
            assert_eq!(1, msgs.len());
            assert_eq!("sensors/node1/state", msgs[0].topic);
            assert!(!msgs[0].retain);
        }
        _ => panic!("a reading must be published"),
    }
}

#[test]
fn a_failed_read_is_skipped() {
    let cfg = Configuration::default();
    let event = LoopEvent::SensorFailed(SensorError::InvalidData);
    assert!(matches!(
        handle_loop_event(&event, &cfg, "node1"),
        LoopAction::Skip
    ));
}

#[test]
fn a_shutdown_stops_the_loop() {
    let cfg = Configuration::default();
    assert!(matches!(
        handle_loop_event(&LoopEvent::Shutdown, &cfg, "node1"),
        LoopAction::Stop
    ));
}

#[test]
fn interval_is_unchanged_after_a_failed_read() {
    let mut sampler = FixedPeriodSampler::new(14);
    assert_eq!(25, interval_after(&mut sampler, None, 25));
    assert_eq!(
        14,
        interval_after(&mut sampler, Some(Measurement::from_milli(5)), 25)
    );
}

#[test]
fn dashes_become_underscores() {
    assert_eq!("my_node_1", dash_to_underscore("my-node-1"));
    assert_eq!("plain", dash_to_underscore("plain"));
    assert_eq!("", dash_to_underscore(""));
}
