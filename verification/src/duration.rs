//! A span of time, held as a plain number of microseconds.
//!
//! The configuration setters of this library accept durations and hand them
//! to the native layer as microsecond counts that must fit in 64 bits; a
//! duration beyond that range is rejected with an overflow error.  Holding
//! the value as a plain integer lets every such check be stated exactly.

use vstd::prelude::*;

verus! {

/// Number of microseconds in one millisecond.
pub const MICROS_PER_MILLI: u128 = 1000;

/// Number of microseconds in one second.
pub const MICROS_PER_SEC: u128 = 1000000;

/// A non-negative span of time, at microsecond resolution.
#[derive(Debug, Clone, Copy, PartialEq, Eq, Structural)]
pub struct Duration {
    micros: u128,
}

impl Duration {
    /// The whole number of microseconds in the span.
    pub closed spec fn spec_micros(self) -> u128 {
        self.micros
    }

    /// A span of the given number of microseconds.
    pub fn from_micros(micros: u64) -> (r: Duration)
        ensures
            r.spec_micros() == micros,
    {
        Duration { micros: micros as u128 }
    }

    /// A span of the given number of milliseconds.
    pub fn from_millis(millis: u64) -> (r: Duration)
        ensures
            r.spec_micros() == millis * MICROS_PER_MILLI,
    {
        Duration { micros: millis as u128 * MICROS_PER_MILLI }
    }

    /// A span of the given number of seconds.
    pub fn from_secs(secs: u64) -> (r: Duration)
        ensures
            r.spec_micros() == secs * MICROS_PER_SEC,
    {
        Duration { micros: secs as u128 * MICROS_PER_SEC }
    }

    /// The whole number of microseconds in the span.
    pub fn as_micros(&self) -> (r: u128)
        ensures
            r == self.spec_micros(),
    {
        self.micros
    }

    /// The whole number of milliseconds in the span (rounded down).
    pub fn as_millis(&self) -> (r: u128)
        ensures
            r == self.spec_micros() / MICROS_PER_MILLI,
    {
        self.micros / MICROS_PER_MILLI
    }
}

} // verus!
