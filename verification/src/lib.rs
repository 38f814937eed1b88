//! Core of a small daemon that reads environmental measurements from a
//! BME280 sensor and publishes them, with home-automation discovery
//! metadata, to an MQTT broker.
//!
//! This crate holds the verified logic: configuration layering, the
//! message builders (state and discovery), the sampling cadence policies,
//! and the decision rules of the publish loop and the orchestrator.
//! The unverified edges (I2C reads, the MQTT session itself, the terminal)
//! live outside and exchange plain values with this library.

pub mod configuration;
pub mod errors;
pub mod fancy;
pub mod fixed_period;
pub mod homeassistant;
pub mod hostname;
pub mod measurement;
pub mod messages;
pub mod orchestrator;
pub mod publisher;
pub mod sampler;
pub mod text;
