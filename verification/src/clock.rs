//! Instants on the UTC time line and the elapsed-time arithmetic of expiry.

use vstd::prelude::*;

verus! {

/// An instant: whole seconds since the Unix epoch, and the nanoseconds past
/// that second.
#[derive(Clone, Copy, Debug, PartialEq, Eq, Structural)]
pub struct Timestamp {
    pub secs: i64,
    pub nanos: u32,
}

impl Timestamp {
    /// The instant as a count of nanoseconds since the Unix epoch.
    pub open spec fn nanos_since_epoch(self) -> int {
        self.secs as int * 1_000_000_000 + self.nanos as int
    }

    /// Builds an instant from its two parts.
    pub fn new(secs: i64, nanos: u32) -> (t: Timestamp)
        ensures
            t.secs == secs,
            t.nanos == nanos,
    {
        Timestamp { secs, nanos }
    }

    /// Whether at least `seconds` whole seconds lie between `earlier` and
    /// this instant.
    pub fn at_least_seconds_after(&self, earlier: Timestamp, seconds: u64) -> (r: bool)
        ensures
            r == (elapsed_seconds(*self, earlier) >= seconds),
    {
        let whole: i128 = (self.secs as i128 - earlier.secs as i128) * 1_000_000_000;
        let d: i128 = whole + (self.nanos as i128 - earlier.nanos as i128);
        if d >= 0 {
            (d as u128) / 1_000_000_000 >= seconds as u128
        } else {
            seconds == 0 && d > -1_000_000_000
        }
    }
}

/// The whole seconds from `earlier` to `now`: the span between the two
/// instants with its fraction of a second cut off (towards zero, so a span of
/// less than a second either way counts as none).
pub open spec fn elapsed_seconds(now: Timestamp, earlier: Timestamp) -> int {
    let d = now.nanos_since_epoch() - earlier.nanos_since_epoch();
    if d >= 0 {
        d / 1_000_000_000
    } else {
        -((-d) / 1_000_000_000)
    }
}

/// Reads the system clock through `chrono::Utc::now` and splits the instant
/// with `DateTime::timestamp` and `DateTime::timestamp_subsec_nanos`. Nothing
/// is claimed of the instant that comes back: two readings need not even be
/// in order. `chrono` panics where the system clock stands before the Unix
/// epoch.
#[verifier::external_body]
pub(crate) fn system_now() -> (t: Timestamp) {
    let t = chrono::Utc::now();
    Timestamp { secs: t.timestamp(), nanos: t.timestamp_subsec_nanos() }
}

} // verus!
