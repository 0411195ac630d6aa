//! Instants in UTC, held as whole seconds since the Unix epoch and the
//! nanoseconds within the second.

use vstd::prelude::*;

verus! {

/// An instant in UTC.
#[derive(Clone, Copy, Debug)]
pub struct Timestamp {
    /// Whole seconds since 1970-01-01T00:00:00Z.
    pub secs: i64,
    /// Nanoseconds within that second (a leap second counts past 10^9).
    pub nanos: u32,
}

impl Timestamp {
    /// The instant `self` comes strictly after `other`.
    pub open spec fn later_than(self, other: Timestamp) -> bool {
        self.secs > other.secs || (self.secs == other.secs && self.nanos > other.nanos)
    }

    /// Whether `self` comes strictly after `other`.
    pub fn is_after(&self, other: &Timestamp) -> (r: bool)
        ensures
            r == self.later_than(*other),
    {
        self.secs > other.secs || (self.secs == other.secs && self.nanos > other.nanos)
    }
}

/// The current instant, through `chrono::Utc::now`. It depends on the clock:
/// all that is claimed is what holds of every value the crate can return
/// (it panics on a clock before the epoch), a time after the epoch with
/// nanoseconds below one second.
#[verifier::external_body]
pub(crate) fn now() -> (t: Timestamp)
    ensures
        t.secs >= 0,
        t.nanos < 1_000_000_000,
{
    let current = chrono::Utc::now();
    Timestamp { secs: current.timestamp(), nanos: current.timestamp_subsec_nanos() }
}

} // verus!
