//! The constant cadence policy.

use vstd::prelude::*;

use crate::measurement::Measurement;
use crate::sampler::Sampler;

verus! {

/// A policy that waits the same number of seconds after every reading.
pub struct FixedPeriodSampler {
    pub interval: u64,
}

impl FixedPeriodSampler {
    /// A policy that always waits `interval_seconds`.
    pub fn new(interval_seconds: u64) -> (s: FixedPeriodSampler)
        ensures
            s.inv(),
            s.max_spec() == interval_seconds,
    {
        FixedPeriodSampler { interval: interval_seconds }
    }
}

impl Sampler for FixedPeriodSampler {
    open spec fn inv(&self) -> bool {
        true
    }

    open spec fn max_spec(&self) -> u64 {
        self.interval
    }

    open spec fn next_ensures(&self, m: Measurement, post: Self, d: u64) -> bool {
        post == *self && d == self.interval
    }

    /// Ignores the reading and returns the fixed interval.
    fn next(&mut self, _measurements: Measurement) -> (d: u64) {
        self.interval
    }

    fn max(&self) -> (d: u64) {
        self.interval
    }
}

} // verus!
