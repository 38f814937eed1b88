use sensor_mqtt::configuration::Args;
use sensor_mqtt::configuration::Configuration;

fn no_args() -> Args {
    Args {
        config: "/etc/sensor_mqtt/sensor_mqtt.toml".to_owned(),
        debug: false,
        i2c_bus_path: None,
        mqtt_host: None,
        mqtt_port: None,
        mqtt_user: None,
        mqtt_password: None,
        mqtt_topic_base: None,
        device_name: None,
        enable_homeassistant_discovery: false,
    }
}

#[test]
fn defaults_are_the_documented_ones() {
    let c = Configuration::default();
    assert_eq!("/dev/i2c-1", c.i2c_bus_path);
    assert_eq!("localhost", c.mqtt_host);
    assert_eq!(1883, c.mqtt_port);
    assert_eq!("", c.mqtt_username);
    assert_eq!("", c.mqtt_password);
    assert_eq!("sensors", c.mqtt_topic_base);
    assert_eq!("", c.device_name);
    assert!(c.enable_homeassistant_discovery);
    assert!(!c.debug_log);
}

#[test]
fn absent_arguments_change_nothing() {
    let c = Configuration::default().with_args(no_args());
    let d = Configuration::default();
    assert_eq!(d.i2c_bus_path, c.i2c_bus_path);
    assert_eq!(d.mqtt_host, c.mqtt_host);
    assert_eq!(d.mqtt_port, c.mqtt_port);
    assert_eq!(d.mqtt_username, c.mqtt_username);
    assert_eq!(d.mqtt_password, c.mqtt_password);
    assert_eq!(d.mqtt_topic_base, c.mqtt_topic_base);
    assert_eq!(d.device_name, c.device_name);
    assert_eq!(
        d.enable_homeassistant_discovery,
        c.enable_homeassistant_discovery
    );
    assert_eq!(d.debug_log, c.debug_log);
}

#[test]
fn given_arguments_override_the_file() {
    let mut args = no_args();
    args.debug = true;
    args.enable_homeassistant_discovery = true;
    args.i2c_bus_path = Some("/dev/i2c-7".to_owned());
    args.mqtt_host = Some("broker.example".to_owned());
    args.mqtt_port = Some(8883);
    args.mqtt_user = Some("user".to_owned());
    args.mqtt_password = Some("SECRET-REDACTED".to_owned());
    args.mqtt_topic_base = Some("attic".to_owned());
    args.device_name = Some("attic-node".to_owned());
    let mut base = Configuration::default();
    base.enable_homeassistant_discovery = false;
    let c = base.with_args(args);
    assert!(c.debug_log);
    assert!(c.enable_homeassistant_discovery);
    assert_eq!("/dev/i2c-7", c.i2c_bus_path);
    assert_eq!("broker.example", c.mqtt_host);
    assert_eq!(8883, c.mqtt_port);
    assert_eq!("user", c.mqtt_username);
    assert_eq!("SECRET-REDACTED", c.mqtt_password);
    assert_eq!("attic", c.mqtt_topic_base);
    assert_eq!("attic-node", c.device_name);
}

#[test]
fn flags_only_switch_settings_on() {
    let mut base = Configuration::default();
    base.debug_log = true;
    base.enable_homeassistant_discovery = true;
    let c = base.with_args(no_args());
    assert!(c.debug_log);
    assert!(c.enable_homeassistant_discovery);
}
