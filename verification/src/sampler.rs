//! The cadence policy: how long to wait before the next reading.

use vstd::prelude::*;

use crate::measurement::Measurement;

verus! {

/// A policy that, given the reading just observed, returns the number
/// of seconds to sleep before the next one.
///
/// Every policy names its own consistency condition (`inv`), the
/// longest interval it can ever return (`max_spec`), and the exact
/// relation between one observation and its outcome (`next_ensures`).
/// The contract of `next` guarantees, for every policy, that no
/// returned interval exceeds `max_spec`, and that `max_spec` never
/// changes over the life of the policy.
pub trait Sampler: Sized {
    /// The internal consistency condition of the policy.
    spec fn inv(&self) -> bool;

    /// The longest interval, in seconds, this policy can ever return.
    spec fn max_spec(&self) -> u64;

    /// The exact relation between the state before an observation, the
    /// observation, the state after it, and the returned interval.
    spec fn next_ensures(&self, m: Measurement, post: Self, d: u64) -> bool;

    /// Observes one reading and returns the seconds to sleep before
    /// the next.
    fn next(&mut self, m: Measurement) -> (d: u64)
        requires
            old(self).inv(),
            m.valid(),
        ensures
            final(self).inv(),
            final(self).max_spec() == old(self).max_spec(),
            d <= old(self).max_spec(),
            old(self).next_ensures(m, *final(self), d),
    ;

    /// The longest interval this policy can ever return.
    fn max(&self) -> (d: u64)
        requires
            self.inv(),
        ensures
            d == self.max_spec(),
    ;
}

} // verus!
