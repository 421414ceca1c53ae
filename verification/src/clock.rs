//! Instants on the UTC time line, and the whole days between two of them.

use time::OffsetDateTime;
use vstd::prelude::*;

verus! {

/// Nanoseconds in one second.
pub const NANOS_PER_SECOND: i128 = 1_000_000_000;

/// Nanoseconds in one day of 86 400 seconds.
pub const NANOS_PER_DAY: i128 = 86_400_000_000_000;

/// An instant, as the seconds since 1970-01-01T00:00:00Z and the nanoseconds
/// past that second. Instants before 1970 have negative seconds; the
/// nanoseconds always count forward.
#[derive(Debug, Clone, Copy, PartialEq, Eq, Structural)]
pub struct UnixTime {
    pub seconds: i64,
    pub nanoseconds: u32,
}

/// `a / b` rounded toward zero, for a positive `b`.
pub open spec fn div_toward_zero(a: int, b: int) -> int {
    if a >= 0 {
        a / b
    } else {
        -((-a) / b)
    }
}

impl UnixTime {
    /// The instant in nanoseconds since 1970-01-01T00:00:00Z.
    pub open spec fn nanos(self) -> int {
        self.seconds * 1_000_000_000 + self.nanoseconds
    }

    /// Whole days from `now` until `self`: the span between the two instants
    /// divided by a day, the fraction dropped. Negative when `self` lies in
    /// the past.
    pub open spec fn whole_days_after(self, now: UnixTime) -> int {
        div_toward_zero(self.nanos() - now.nanos(), 86_400_000_000_000)
    }

    /// Whole days from `now` until `self`, rounded toward zero.
    pub fn days_after(&self, now: &UnixTime) -> (days: i64)
        ensures
            days == self.whole_days_after(*now),
    {
        let end: i128 = (self.seconds as i128) * NANOS_PER_SECOND + (self.nanoseconds as i128);
        let start: i128 = (now.seconds as i128) * NANOS_PER_SECOND + (now.nanoseconds as i128);
        let span: i128 = end - start;
        let days: i128 = span / NANOS_PER_DAY;
        days as i64
    }
}

/// Reads the system clock through `time::OffsetDateTime::now_utc` and keeps
/// the instant as seconds and nanoseconds since 1970. Nothing is claimed of
/// the value: the clock may say anything.
#[verifier::external_body]
pub(crate) fn now_utc() -> (now: UnixTime) {
    let now = OffsetDateTime::now_utc();
    UnixTime { seconds: now.unix_timestamp(), nanoseconds: now.nanosecond() }
}

} // verus!
