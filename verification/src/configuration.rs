//! Run-time settings: defaults, and the command-line overlay.
//!
//! Settings are layered defaults <- file <- command line. The file and
//! the command line are read outside this library; the layering itself
//! is verified here.

use vstd::prelude::*;

verus! {

/// The command-line arguments, already parsed into plain values.
#[derive(Clone, Debug)]
pub struct Args {
    /// Path of the configuration file to read.
    pub config: String,
    /// Enable debug logging.
    pub debug: bool,
    /// Override for the I2C bus path.
    pub i2c_bus_path: Option<String>,
    /// Override for the MQTT host.
    pub mqtt_host: Option<String>,
    /// Override for the MQTT port.
    pub mqtt_port: Option<u16>,
    /// Override for the MQTT user name.
    pub mqtt_user: Option<String>,
    /// Override for the MQTT password.
    pub mqtt_password: Option<String>,
    /// Override for the base topic of outbound messages.
    pub mqtt_topic_base: Option<String>,
    /// Override for the reported device name.
    pub device_name: Option<String>,
    /// Force home-automation discovery messages on.
    pub enable_homeassistant_discovery: bool,
}

/// The read-only settings of one run.
#[derive(Clone, Debug)]
pub struct Configuration {
    pub i2c_bus_path: String,
    pub mqtt_host: String,
    pub mqtt_port: u16,
    pub mqtt_username: String,
    pub mqtt_password: String,
    pub mqtt_topic_base: String,
    pub device_name: String,
    pub enable_homeassistant_discovery: bool,
    pub debug_log: bool,
}

impl Default for Configuration {
    /// The settings used when neither the file nor the command line
    /// says otherwise.
    fn default() -> (c: Configuration)
        ensures
            c.i2c_bus_path@ == "/dev/i2c-1"@,
            c.mqtt_host@ == "localhost"@,
            c.mqtt_port == 1883,
            c.mqtt_username@ == ""@,
            c.mqtt_password@ == ""@,
            c.mqtt_topic_base@ == "sensors"@,
            c.device_name@ == ""@,
            c.enable_homeassistant_discovery == true,
            c.debug_log == false,
    {
        Configuration {
            i2c_bus_path: "/dev/i2c-1".to_owned(),
            mqtt_host: "localhost".to_owned(),
            mqtt_port: 1883,
            mqtt_username: "".to_owned(),
            mqtt_password: "".to_owned(),
            mqtt_topic_base: "sensors".to_owned(),
            device_name: "".to_owned(),
            enable_homeassistant_discovery: true,
            debug_log: false,
        }
    }
}

impl Configuration {
    /// This configuration with every command-line override applied:
    /// the two flags can only switch their settings on, and each given
    /// value replaces the one read from the file.
    pub fn with_args(self, args: Args) -> (c: Configuration)
        ensures
            c.debug_log == (self.debug_log || args.debug),
            c.enable_homeassistant_discovery == (self.enable_homeassistant_discovery
                || args.enable_homeassistant_discovery),
            c.i2c_bus_path@ == (match args.i2c_bus_path {
                Some(p) => p@,
                None => self.i2c_bus_path@,
            }),
            c.mqtt_host@ == (match args.mqtt_host {
                Some(h) => h@,
                None => self.mqtt_host@,
            }),
            c.mqtt_port == (match args.mqtt_port {
                Some(p) => p,
                None => self.mqtt_port,
            }),
            c.mqtt_username@ == (match args.mqtt_user {
                Some(u) => u@,
                None => self.mqtt_username@,
            }),
            c.mqtt_password@ == (match args.mqtt_password {
                Some(p) => p@,
                None => self.mqtt_password@,
            }),
            c.mqtt_topic_base@ == (match args.mqtt_topic_base {
                Some(b) => b@,
                None => self.mqtt_topic_base@,
            }),
            c.device_name@ == (match args.device_name {
                Some(d) => d@,
                None => self.device_name@,
            }),
    {
        let mut c = self;
        if args.debug {
            c.debug_log = true;
        }
        if args.enable_homeassistant_discovery {
            c.enable_homeassistant_discovery = true;
        }
        if let Some(bus_path) = args.i2c_bus_path {
            c.i2c_bus_path = bus_path;
        }
        if let Some(mqtt_host) = args.mqtt_host {
            c.mqtt_host = mqtt_host;
        }
        if let Some(mqtt_port) = args.mqtt_port {
            c.mqtt_port = mqtt_port;
        }
        if let Some(mqtt_user) = args.mqtt_user {
            c.mqtt_username = mqtt_user;
        }
        if let Some(mqtt_password) = args.mqtt_password {
            c.mqtt_password = mqtt_password;
        }
        if let Some(mqtt_topic_base) = args.mqtt_topic_base {
            c.mqtt_topic_base = mqtt_topic_base;
        }
        if let Some(device_name) = args.device_name {
            c.device_name = device_name;
        }
        c
    }
}

} // verus!
