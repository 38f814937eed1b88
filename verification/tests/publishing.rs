use sensor_mqtt::configuration::Configuration;
use sensor_mqtt::errors::exit_code;
use sensor_mqtt::errors::is_fatal;
use sensor_mqtt::errors::AppError;
use sensor_mqtt::errors::Phase;
use sensor_mqtt::errors::PublishError;
use sensor_mqtt::errors::SensorError;
use sensor_mqtt::publisher::client_id;
use sensor_mqtt::publisher::PublishTracker;
use sensor_mqtt::publisher::PublisherAction;
use sensor_mqtt::publisher::PublisherEvent;

#[test]
fn tracker_disconnects_exactly_when_the_last_ack_arrives() {
    let mut t = PublishTracker::new(3);
    assert!(!t.done());
    assert_eq!(
        PublisherAction::Continue,
        t.on_event(PublisherEvent::ConnAckReceived)
    );
    assert_eq!(
        PublisherAction::Continue,
        t.on_event(PublisherEvent::OutgoingSent)
    );
    assert_eq!(
        PublisherAction::Continue,
        t.on_event(PublisherEvent::PubAckReceived)
    );
    assert_eq!(
        PublisherAction::Continue,
        t.on_event(PublisherEvent::PubAckReceived)
    );
    assert_eq!(
        PublisherAction::Disconnect,
        t.on_event(PublisherEvent::PubAckReceived)
    );
    assert!(t.done());
}

#[test]
fn tracker_ignores_acks_beyond_the_batch() {
    let mut t = PublishTracker::new(1);
    assert_eq!(
        PublisherAction::Disconnect,
        t.on_event(PublisherEvent::PubAckReceived)
    );
    assert_eq!(
        PublisherAction::Continue,
        t.on_event(PublisherEvent::PubAckReceived)
    );
    assert!(t.done());
}

#[test]
fn empty_batch_is_done_before_any_event() {
    let t = PublishTracker::new(0);
    assert!(t.done());
}

#[test]
fn client_id_carries_the_device_name() {
    let mut cfg = Configuration::default();
    cfg.device_name = "lab".to_owned();
    assert_eq!("sensor-mqtt-client-lab", client_id(&cfg));
}

#[test]
fn sensor_error_messages_are_the_documented_ones() {
    assert_eq!("Invalid Data", SensorError::InvalidData.message());
    assert_eq!("Compensation Failed", SensorError::CompensationFailed.message());
    assert_eq!("No Calibration Data", SensorError::NoCalibrationData.message());
    assert_eq!("Unsupported Chip", SensorError::UnsupportedChip.message());
    assert_eq!(
        "I2c error device busy",
        SensorError::Bus("device busy".to_owned()).message()
    );
}

#[test]
fn publish_error_messages_name_the_layer() {
    assert_eq!(
        "MQTT client error: queue full",
        PublishError::Client("queue full".to_owned()).message()
    );
    assert_eq!(
        "MQTT connection error: refused",
        PublishError::EventLoop("refused".to_owned()).message()
    );
}

#[test]
fn fatality_follows_the_phase_table() {
    let sensor = AppError::Sensor(SensorError::InvalidData);
    let publish = AppError::Publish(PublishError::EventLoop("x".to_owned()));
    let config = AppError::Config("bad toml".to_owned());
    let encode = AppError::Serialization("bug".to_owned());
    assert!(is_fatal(Phase::Startup, &sensor));
    assert!(!is_fatal(Phase::Loop, &sensor));
    assert!(is_fatal(Phase::Startup, &publish));
    assert!(!is_fatal(Phase::Loop, &publish));
    assert!(is_fatal(Phase::Startup, &config));
    assert!(is_fatal(Phase::Loop, &config));
    assert!(is_fatal(Phase::Startup, &encode));
    assert!(is_fatal(Phase::Loop, &encode));
    assert!(!is_fatal(Phase::Startup, &AppError::ShutdownRequested));
    assert!(!is_fatal(Phase::Loop, &AppError::ShutdownRequested));
}

#[test]
fn exit_codes_follow_the_error_kind() {
    assert_eq!(2, exit_code(&AppError::Config("bad".to_owned())));
    assert_eq!(0, exit_code(&AppError::ShutdownRequested));
    assert_eq!(1, exit_code(&AppError::Sensor(SensorError::InvalidData)));
    assert_eq!(
        1,
        exit_code(&AppError::Publish(PublishError::Client("x".to_owned())))
    );
    assert_eq!(1, exit_code(&AppError::Serialization("bug".to_owned())));
}
