//! Instants on the UTC time line, and the clock that supplies them.

use vstd::prelude::*;

verus! {

/// An instant: whole seconds since 1970-01-01T00:00:00Z, and the nanoseconds
/// that have passed since that second began.
#[derive(Clone, Copy, Debug, PartialEq, Eq, Structural)]
pub struct Timestamp {
    pub seconds: i64,
    pub nanos: u32,
}

impl Timestamp {
    /// The instant as a count of nanoseconds since the epoch.
    pub open spec fn as_nanos(self) -> int {
        self.seconds * 1_000_000_000 + self.nanos
    }

    /// The instant `nanos` nanoseconds after the start of second `seconds`.
    pub fn new(seconds: i64, nanos: u32) -> (t: Timestamp)
        ensures
            t.seconds == seconds,
            t.nanos == nanos,
    {
        Timestamp { seconds, nanos }
    }

    /// Nanoseconds from `earlier` to `self`; negative when `self` comes first.
    pub fn nanos_since(&self, earlier: &Timestamp) -> (elapsed: i128)
        ensures
            elapsed == self.as_nanos() - earlier.as_nanos(),
    {
        let whole: i128 = (self.seconds as i128 - earlier.seconds as i128) * 1_000_000_000;
        whole + (self.nanos as i128 - earlier.nanos as i128)
    }
}

/// Reads the system clock through `chrono::Utc::now` and splits the result
/// with `DateTime::timestamp` and `DateTime::timestamp_subsec_nanos`.
///
/// Nothing is claimed of the instant returned: two readings may come back in
/// any order. `Utc::now` panics when the system clock is set before the epoch.
#[verifier::external_body]
pub(crate) fn read_clock() -> Timestamp {
    let t = chrono::Utc::now();
    Timestamp { seconds: t.timestamp(), nanos: t.timestamp_subsec_nanos() }
}

} // verus!
