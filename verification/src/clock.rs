//! Points in time, in UTC.

use vstd::prelude::*;

verus! {

/// The number of nanoseconds in a second.
pub const NANOS_PER_SECOND: u32 = 1_000_000_000;

/// A point in time in UTC: whole seconds since the start of 1970, leap
/// seconds not counted, and the nanoseconds since the last whole second.
#[derive(Clone, Copy, Debug, PartialEq, Eq, Structural)]
pub struct Timestamp {
    pub secs: i64,
    pub nanos: u32,
}

impl Timestamp {
    /// What holds of every reading of the clock: it is not before 1970, and
    /// its nanoseconds stay below a second.
    pub open spec fn is_clock_reading(&self) -> bool {
        0 <= self.secs && self.nanos < NANOS_PER_SECOND
    }

    /// The point in time with the given seconds and nanoseconds.
    pub fn new(secs: i64, nanos: u32) -> (t: Timestamp)
        ensures
            t.secs == secs,
            t.nanos == nanos,
    {
        Timestamp { secs, nanos }
    }
}

/// Reads the clock.
///
/// Trusted: calls `chrono::Utc::now` and takes the result apart with
/// `DateTime::timestamp` and `DateTime::timestamp_subsec_nanos`. The contract
/// claims what holds of every reading: `now` builds its result from the time
/// that has passed since the start of 1970, so the seconds are not negative,
/// and from that duration's nanoseconds below a second, so no leap second is
/// ever shown. It claims nothing else: two readings may be equal, and a later
/// one may show an earlier time where the system's clock was set back. `now`
/// panics where the system's clock stands before 1970.
#[verifier::external_body]
pub(crate) fn utc_now() -> (t: Timestamp)
    ensures
        t.is_clock_reading(),
{
    let now = chrono::Utc::now();
    Timestamp { secs: now.timestamp(), nanos: now.timestamp_subsec_nanos() }
}

} // verus!
