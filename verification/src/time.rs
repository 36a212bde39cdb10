//! Points in time as the stores record them.

use vstd::prelude::*;

verus! {

/// A UTC instant: whole seconds since the Unix epoch and the nanoseconds
/// within that second.
#[derive(Clone, Copy, Debug, PartialEq, Eq, Structural)]
pub struct Timestamp {
    pub seconds: i64,
    pub nanos: u32,
}

impl Timestamp {
    /// `self` is not later than `other`.
    pub open spec fn at_or_before(self, other: Timestamp) -> bool {
        self.seconds < other.seconds || (self.seconds == other.seconds && self.nanos
            <= other.nanos)
    }

    /// The later of `self` and `other`.
    pub open spec fn later_of(self, other: Timestamp) -> Timestamp {
        if self.at_or_before(other) {
            other
        } else {
            self
        }
    }

    /// Whether `self` is not later than `other`.
    pub fn is_at_or_before(&self, other: &Timestamp) -> (r: bool)
        ensures
            r == self.at_or_before(*other),
    {
        self.seconds < other.seconds || (self.seconds == other.seconds && self.nanos
            <= other.nanos)
    }

    /// The later of two instants.
    pub fn later(self, other: Timestamp) -> (r: Timestamp)
        ensures
            r == self.later_of(other),
    {
        if self.is_at_or_before(&other) {
            other
        } else {
            self
        }
    }

    /// The current time, read from `chrono::Utc::now`: the seconds are
    /// `DateTime::timestamp` and the nanoseconds
    /// `DateTime::timestamp_subsec_nanos` of what it returns. The clock is the
    /// system's, so the contract claims only what chrono derives from a
    /// duration since the epoch: a non-negative count of seconds and less than
    /// a second of nanoseconds. chrono panics where the system clock stands
    /// before the epoch.
    #[verifier::external_body]
    pub(crate) fn now() -> (t: Timestamp)
        ensures
            t.seconds >= 0,
            t.nanos < 1_000_000_000,
    {
        let now = chrono::Utc::now();
        Timestamp { seconds: now.timestamp(), nanos: now.timestamp_subsec_nanos() }
    }
}

/// The order of instants is total and transitive, and `later_of` is its
/// maximum.
pub proof fn law_time_is_totally_ordered(a: Timestamp, b: Timestamp, c: Timestamp)
    ensures
        a.at_or_before(a),
        a.at_or_before(b) || b.at_or_before(a),
        a.at_or_before(b) && b.at_or_before(a) ==> a == b,
        a.at_or_before(b) && b.at_or_before(c) ==> a.at_or_before(c),
        a.at_or_before(a.later_of(b)),
        b.at_or_before(a.later_of(b)),
{
}

} // verus!
