//! Reading the system clock.

use vstd::prelude::*;
use crate::timefmt::LATEST_MILLIS;

verus! {

/// `Utc::now().timestamp_millis()`. chrono's `Utc::now` panics when the
/// system clock reads before 1970 or past the representable range, so a
/// value that comes back lies between 0 and `LATEST_MILLIS`; which value it
/// is depends on the clock.
#[verifier::external_body]
fn now_millis() -> (r: i64)
    ensures
        0 <= r <= LATEST_MILLIS,
{
    chrono::Utc::now().timestamp_millis()
}

/// A reading of the system clock, in milliseconds since the epoch. Only
/// `ClockReading::read` makes one, so a reading named in a contract is a
/// value the clock gave.
pub struct ClockReading {
    millis: i64,
}

impl ClockReading {
    /// The milliseconds the clock read.
    pub closed spec fn millis(self) -> i64 {
        self.millis
    }

    /// The milliseconds the clock read.
    pub fn value(&self) -> (r: i64)
        ensures
            r == self.millis(),
    {
        self.millis
    }

    /// Reads the clock.
    pub fn read() -> (c: ClockReading)
        ensures
            0 <= c.millis() <= LATEST_MILLIS,
    {
        ClockReading { millis: now_millis() }
    }
}

} // verus!
