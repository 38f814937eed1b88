//! Scalar sensor readings, held as fixed-point numbers.
//!
//! A reading is carried in thousandths of its unit (milli-degrees,
//! milli-pascal, milli-percent), so that the cadence policy and the
//! payload encoding work on exact integers.

use vstd::prelude::*;

verus! {

/// Largest magnitude, in thousandths, that a measurement may carry.
/// Wide enough for any physical reading of this sensor; narrow enough
/// that sums and scaled comparisons over a bounded history fit in `i64`.
pub const MAX_ABS_MILLI: i64 = 1_000_000_000_000_000;

/// One scalar sensor reading, in thousandths of its unit.
#[derive(Clone, Copy, Debug, PartialEq, Eq, Structural)]
pub struct Measurement {
    pub milli: i64,
}

impl Measurement {
    /// A reading is valid when its magnitude is within `MAX_ABS_MILLI`.
    pub open spec fn valid(self) -> bool {
        -MAX_ABS_MILLI <= self.milli <= MAX_ABS_MILLI
    }

    pub fn from_milli(milli: i64) -> (m: Measurement)
        requires
            -MAX_ABS_MILLI <= milli <= MAX_ABS_MILLI,
        ensures
            m.milli == milli,
            m.valid(),
    {
        Measurement { milli }
    }

    /// The absolute difference between two readings.
    pub fn abs_delta(self, other: Measurement) -> (d: i64)
        requires
            self.valid(),
            other.valid(),
        ensures
            d == abs_delta_spec(self, other),
            0 <= d <= 2 * MAX_ABS_MILLI,
    {
        if self.milli >= other.milli {
            self.milli - other.milli
        } else {
            other.milli - self.milli
        }
    }
}

/// The absolute difference between two readings, as a mathematical integer.
pub open spec fn abs_delta_spec(a: Measurement, b: Measurement) -> int {
    if a.milli >= b.milli {
        a.milli - b.milli
    } else {
        b.milli - a.milli
    }
}

/// One full reading of the sensor: temperature in milli-degrees Celsius,
/// pressure in milli-pascal, relative humidity in milli-percent.
#[derive(Clone, Copy, Debug, PartialEq, Eq, Structural)]
pub struct Measurements {
    pub temperature: Measurement,
    pub pressure: Measurement,
    pub humidity: Measurement,
}

impl Measurements {
    pub open spec fn valid(self) -> bool {
        self.temperature.valid() && self.pressure.valid() && self.humidity.valid()
    }

    pub fn new(temperature: Measurement, pressure: Measurement, humidity: Measurement) -> (m:
        Measurements)
        ensures
            m.temperature == temperature,
            m.pressure == pressure,
            m.humidity == humidity,
    {
        Measurements { temperature, pressure, humidity }
    }
}

} // verus!
