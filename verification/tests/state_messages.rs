use sensor_mqtt::configuration::Configuration;
use sensor_mqtt::measurement::Measurement;
use sensor_mqtt::measurement::Measurements;
use sensor_mqtt::messages::build_state_payload;
use sensor_mqtt::messages::build_state_topic;
use sensor_mqtt::messages::measurements_to_messages;
use sensor_mqtt::messages::measurements_to_messages_for_host;
use sensor_mqtt::text::measurement_to_string;

fn reading(t_milli: i64, p_milli: i64, h_milli: i64) -> Measurements {
    Measurements::new(
        Measurement::from_milli(t_milli),
        Measurement::from_milli(p_milli),
        Measurement::from_milli(h_milli),
    )
}

#[test]
fn state_message_topic_retain_and_values() {
    let mut cfg = Configuration::default();
    cfg.mqtt_topic_base = "sensors".to_owned();
    let m = reading(21_500, 101_325_000, 42_000);
    let msgs = measurements_to_messages_for_host(&m, &cfg, "n");
    assert_eq!(1, msgs.len());
    assert_eq!("sensors/n/state", msgs[0].topic);
    assert!(!msgs[0].retain);
    let v: serde_json::Value = serde_json::from_str(&msgs[0].payload).unwrap();
    assert_eq!(21.5, v["temperature"].as_f64().unwrap());
    assert_eq!(101325.0, v["pressure"].as_f64().unwrap());
    assert_eq!(42.0, v["humidity"].as_f64().unwrap());
}

#[test]
fn state_message_for_os_hostname_is_single_and_not_retained() {
    let cfg = Configuration::default();
    let m = reading(0, 0, 0);
    let msgs = measurements_to_messages(&m, &cfg);
    assert_eq!(1, msgs.len());
    assert!(!msgs[0].retain);
    assert!(msgs[0].topic.starts_with("sensors/"));
    assert!(msgs[0].topic.ends_with("/state"));
}

#[test]
fn state_payload_is_the_exact_json_document() {
    let m = reading(21_500, 101_325_000, 42_000);
    let p = build_state_payload(&m);
    assert_eq!(
        "{\"temperature\":21.500,\"pressure\":101325.000,\"humidity\":42.000}",
        p
    );
}

#[test]
fn state_payload_round_trips_through_json() {
    let m = reading(-3_271, 99_824_117, 55_001);
    let p = build_state_payload(&m);
    let v: serde_json::Value = serde_json::from_str(&p).unwrap();
    let t = v["temperature"].as_f64().unwrap();
    let pr = v["pressure"].as_f64().unwrap();
    let h = v["humidity"].as_f64().unwrap();
    assert_eq!(-3_271, (t * 1000.0).round() as i64);
    assert_eq!(99_824_117, (pr * 1000.0).round() as i64);
    assert_eq!(55_001, (h * 1000.0).round() as i64);
}

#[test]
fn state_topic_is_base_host_state() {
    assert_eq!("sensors/node1/state", build_state_topic("sensors", "node1"));
}

#[test]
fn measurement_rendering_is_fixed_point_decimal() {
    assert_eq!("0.000", measurement_to_string(Measurement::from_milli(0)));
    assert_eq!("21.500", measurement_to_string(Measurement::from_milli(21_500)));
    assert_eq!("-1.234", measurement_to_string(Measurement::from_milli(-1_234)));
    assert_eq!("-0.005", measurement_to_string(Measurement::from_milli(-5)));
    assert_eq!(
        "101325.000",
        measurement_to_string(Measurement::from_milli(101_325_000))
    );
}
