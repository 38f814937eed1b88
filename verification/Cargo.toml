[package]
name = "sensor_mqtt"
version = "0.1.0"
edition = "2021"
publish = false

[dependencies]
whoami = "*"
anyhow = "*"
clap = { version = "*", features = ["derive"] }
config = { version = "*", default-features = false, features = ["toml"] }
log = "*"
simplelog = "*"
serde = { version = "*", features = ["derive"] }
serde_json = "*"
tokio = { version = "*", features = ["rt-multi-thread", "macros", "signal", "time"] }
rumqttc = "*"
rand = "*"
rand_distr = "*"
linux-embedded-hal = "*"
bme280 = "*"
