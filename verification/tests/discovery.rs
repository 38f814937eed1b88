use sensor_mqtt::configuration::Configuration;
use sensor_mqtt::homeassistant::get_discovery_messages;
use sensor_mqtt::homeassistant::get_discovery_messages_for_host;

fn test_config(enable_discovery: bool) -> Configuration {
    let mut c = Configuration::default();
    c.mqtt_topic_base = "sensors".to_owned();
    c.device_name = "lab".to_owned();
    c.enable_homeassistant_discovery = enable_discovery;
    c
}

#[test]
fn discovery_disabled_gives_no_messages() {
    let cfg = test_config(false);
    let msgs = get_discovery_messages_for_host(&cfg, "node1");
    assert_eq!(0, msgs.len());
}

#[test]
fn discovery_disabled_gives_no_messages_for_os_hostname() {
    let cfg = test_config(false);
    let msgs = get_discovery_messages(&cfg);
    assert_eq!(0, msgs.len());
}

#[test]
fn discovery_enabled_gives_three_expected_topics() {
    let cfg = test_config(true);
    let msgs = get_discovery_messages_for_host(&cfg, "node1");
    let topics: Vec<&str> = msgs.iter().map(|m| m.topic.as_str()).collect();
    assert_eq!(
        vec![
            "homeassistant/sensor/node1_temperature/config",
            "homeassistant/sensor/node1_pressure/config",
            "homeassistant/sensor/node1_humidity/config",
        ],
        topics
    );
}

#[test]
fn discovery_enabled_gives_three_messages_for_os_hostname() {
    let cfg = test_config(true);
    let msgs = get_discovery_messages(&cfg);
    assert_eq!(3, msgs.len());
    for m in &msgs {
        assert!(m.retain);
        assert!(m.topic.starts_with("homeassistant/sensor/"));
        assert!(m.topic.ends_with("/config"));
    }
}

#[test]
fn discovery_messages_are_retained() {
    let cfg = test_config(true);
    let msgs = get_discovery_messages_for_host(&cfg, "node1");
    assert_eq!(3, msgs.len());
    for m in &msgs {
        assert!(m.retain);
    }
}

#[test]
fn discovery_payloads_hold_the_announced_fields() {
    let cfg = test_config(true);
    let msgs = get_discovery_messages_for_host(&cfg, "node1");
    let v: serde_json::Value = serde_json::from_str(&msgs[0].payload).unwrap();
    assert_eq!("temperature", v["device_class"].as_str().unwrap());
    assert_eq!("lab Temperature", v["name"].as_str().unwrap());
    assert_eq!("node1_temperature", v["object_id"].as_str().unwrap());
    assert_eq!("sensors/node1/state", v["state_topic"].as_str().unwrap());
    assert_eq!("\u{b0}C", v["unit_of_measurement"].as_str().unwrap());
    assert_eq!(
        "{{ value_json.temperature }}",
        v["value_template"].as_str().unwrap()
    );
    assert_eq!(300, v["expire_after"].as_i64().unwrap());
    let p: serde_json::Value = serde_json::from_str(&msgs[1].payload).unwrap();
    assert_eq!("pressure", p["device_class"].as_str().unwrap());
    assert_eq!("Pa", p["unit_of_measurement"].as_str().unwrap());
    let h: serde_json::Value = serde_json::from_str(&msgs[2].payload).unwrap();
    assert_eq!("humidity", h["device_class"].as_str().unwrap());
    assert_eq!("%", h["unit_of_measurement"].as_str().unwrap());
}

#[test]
fn object_id_turns_dashes_into_underscores() {
    let cfg = test_config(true);
    let msgs = get_discovery_messages_for_host(&cfg, "my-node-1");
    let kinds = ["temperature", "pressure", "humidity"];
    for (m, kind) in msgs.iter().zip(kinds.iter()) {
        let v: serde_json::Value = serde_json::from_str(&m.payload).unwrap();
        let object_id = v["object_id"].as_str().unwrap().to_owned();
        assert_eq!(format!("my_node_1_{kind}"), object_id);
        assert!(!object_id.contains('-'));
    }
}

#[test]
fn discovery_is_idempotent() {
    let cfg = test_config(true);
    let a = get_discovery_messages_for_host(&cfg, "node1");
    let b = get_discovery_messages_for_host(&cfg, "node1");
    assert_eq!(a.len(), b.len());
    for (x, y) in a.iter().zip(b.iter()) {
        assert_eq!(x.topic, y.topic);
        assert_eq!(x.payload, y.payload);
        assert_eq!(x.retain, y.retain);
    }
}

#[test]
fn discovery_escapes_device_names() {
    let mut cfg = test_config(true);
    cfg.device_name = "quo\"te\\slash".to_owned();
    let msgs = get_discovery_messages_for_host(&cfg, "node1");
    let v: serde_json::Value = serde_json::from_str(&msgs[0].payload).unwrap();
    assert_eq!("quo\"te\\slash Temperature", v["name"].as_str().unwrap());
}
