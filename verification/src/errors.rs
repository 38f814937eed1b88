//! The error kinds of the daemon, and what each one means for the
//! process: which are fatal, and with which exit code the process
//! leaves.

use vstd::prelude::*;

verus! {

/// A failure of the sensor: chip initialization, calibration,
/// compensation, reading, or the bus itself.
#[derive(Clone, Debug)]
pub enum SensorError {
    InvalidData,
    CompensationFailed,
    NoCalibrationData,
    UnsupportedChip,
    Bus(String),
}

/// The human message of a sensor failure.
pub open spec fn sensor_error_message(e: SensorError) -> Seq<char> {
    match e {
        SensorError::InvalidData => "Invalid Data"@,
        SensorError::CompensationFailed => "Compensation Failed"@,
        SensorError::NoCalibrationData => "No Calibration Data"@,
        SensorError::UnsupportedChip => "Unsupported Chip"@,
        SensorError::Bus(msg) => "I2c error "@ + msg@,
    }
}

impl SensorError {
    /// The human message of this failure.
    pub fn message(&self) -> (s: String)
        ensures
            s@ == sensor_error_message(*self),
    {
        match self {
            SensorError::InvalidData => "Invalid Data".to_owned(),
            SensorError::CompensationFailed => "Compensation Failed".to_owned(),
            SensorError::NoCalibrationData => "No Calibration Data".to_owned(),
            SensorError::UnsupportedChip => "Unsupported Chip".to_owned(),
            SensorError::Bus(msg) => {
                let mut s = String::new();
                s.append("I2c error ");
                s.append(msg.as_str());
                proof {
                    assert(s@ =~= "I2c error "@ + msg@);
                }
                s
            },
        }
    }
}

/// A failure of the publish layer: submitting a message to the
/// client, or driving its event stream.
#[derive(Clone, Debug)]
pub enum PublishError {
    Client(String),
    EventLoop(String),
}

/// The human message of a publish failure.
pub open spec fn publish_error_message(e: PublishError) -> Seq<char> {
    match e {
        PublishError::Client(msg) => "MQTT client error: "@ + msg@,
        PublishError::EventLoop(msg) => "MQTT connection error: "@ + msg@,
    }
}

impl PublishError {
    /// The human message of this failure.
    pub fn message(&self) -> (s: String)
        ensures
            s@ == publish_error_message(*self),
    {
        let mut s = String::new();
        match self {
            PublishError::Client(msg) => {
                s.append("MQTT client error: ");
                s.append(msg.as_str());
                proof {
                    assert(s@ =~= "MQTT client error: "@ + msg@);
                }
            },
            PublishError::EventLoop(msg) => {
                s.append("MQTT connection error: ");
                s.append(msg.as_str());
                proof {
                    assert(s@ =~= "MQTT connection error: "@ + msg@);
                }
            },
        }
        s
    }
}

/// Everything that can end an iteration or the process.
#[derive(Clone, Debug)]
pub enum AppError {
    /// The configuration could not be loaded.
    Config(String),
    /// The sensor could not be read.
    Sensor(SensorError),
    /// A payload could not be encoded; treated as a bug.
    Serialization(String),
    /// The broker could not be reached or did not acknowledge.
    Publish(PublishError),
    /// A shutdown signal arrived; not a failure.
    ShutdownRequested,
}

/// Where the daemon stands when an error surfaces.
#[derive(Clone, Copy, Debug, PartialEq, Eq, Structural)]
pub enum Phase {
    /// Loading configuration, the first sensor read, and the
    /// discovery publish.
    Startup,
    /// The steady sampling loop.
    Loop,
}

/// Which errors end the process: configuration and encoding failures
/// always; sensor and publish failures only outside the steady loop,
/// where they are logged and the loop goes on; a requested shutdown
/// is never a failure.
pub open spec fn is_fatal_spec(phase: Phase, e: AppError) -> bool {
    match e {
        AppError::Config(_) => true,
        AppError::Serialization(_) => true,
        AppError::Sensor(_) => phase == Phase::Startup,
        AppError::Publish(_) => phase == Phase::Startup,
        AppError::ShutdownRequested => false,
    }
}

/// Decides whether an error ends the process in the given phase.
pub fn is_fatal(phase: Phase, e: &AppError) -> (r: bool)
    ensures
        r == is_fatal_spec(phase, *e),
{
    match e {
        AppError::Config(_) => true,
        AppError::Serialization(_) => true,
        AppError::Sensor(_) => phase == Phase::Startup,
        AppError::Publish(_) => phase == Phase::Startup,
        AppError::ShutdownRequested => false,
    }
}

/// The exit code the process leaves with: two when the configuration
/// could not be loaded, zero after a requested shutdown, one for any
/// other fatal error.
pub open spec fn exit_code_spec(e: AppError) -> i32 {
    match e {
        AppError::Config(_) => 2,
        AppError::ShutdownRequested => 0,
        _ => 1,
    }
}

/// The exit code for a fatal error.
pub fn exit_code(e: &AppError) -> (c: i32)
    ensures
        c == exit_code_spec(*e),
{
    match e {
        AppError::Config(_) => 2,
        AppError::ShutdownRequested => 0,
        _ => 1,
    }
}

} // verus!
