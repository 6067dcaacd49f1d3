//! Wall-clock instants as plain numbers.
use vstd::prelude::*;

verus! {

/// Nanoseconds in one second.
pub const NANOS_PER_SEC: i128 = 1_000_000_000;

/// A wall-clock instant: whole seconds since the Unix epoch and the
/// nanoseconds past that second (above a billion only inside a leap second).
#[derive(Clone, Copy, Debug, PartialEq, Eq, Structural)]
pub struct Timestamp {
    pub secs: i64,
    pub nanos: u32,
}

impl Timestamp {
    /// The instant as nanoseconds since the epoch.
    pub open spec fn total_nanos(self) -> int {
        self.secs as int * 1_000_000_000 + self.nanos as int
    }

    /// Builds an instant from its two parts.
    pub fn new(secs: i64, nanos: u32) -> (r: Timestamp)
        ensures
            r.secs == secs,
            r.nanos == nanos,
    {
        Timestamp { secs, nanos }
    }

    /// Nanoseconds from `earlier` to `self` (negative when `earlier` is later).
    pub fn nanos_since(&self, earlier: &Timestamp) -> (r: i128)
        ensures
            r == self.total_nanos() - earlier.total_nanos(),
    {
        (self.secs as i128 - earlier.secs as i128) * NANOS_PER_SEC + (self.nanos as i128
            - earlier.nanos as i128)
    }
}

/// Relies on `chrono::Local::now`, `DateTime::timestamp` and
/// `DateTime::timestamp_subsec_nanos`: the current wall-clock time. Nothing is
/// promised of the value.
#[verifier::external_body]
pub(crate) fn wall_clock_now() -> (r: Timestamp) {
    let now = chrono::Local::now();
    Timestamp { secs: now.timestamp(), nanos: now.timestamp_subsec_nanos() }
}

} // verus!
