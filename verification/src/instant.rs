//! Points in time as plain integers. The shell converts its clock readings
//! into a [`Timestamp`] and back; everything in the library computes on the
//! nanosecond count.

use vstd::prelude::*;

verus! {

/// Nanoseconds in one second.
pub const NANOS_PER_SECOND: i128 = 1_000_000_000;

/// Nanoseconds in one millisecond.
pub const NANOS_PER_MILLI: i128 = 1_000_000;

/// Nanoseconds in one day.
pub const NANOS_PER_DAY: i128 = 86_400_000_000_000;

/// The largest distance from the Unix epoch, in nanoseconds, that a
/// timestamp may have. It exceeds the range of every calendar type the
/// shell uses (some 262,000 years either side of the epoch), so every real
/// clock reading fits.
pub const MAX_TIMESTAMP_NANOS: i128 = 0x1_0000_0000_0000_0000_0000;

/// An instant in UTC, as signed nanoseconds since the Unix epoch.
#[derive(Clone, Copy, Debug, PartialEq, Eq, Structural)]
pub struct Timestamp {
    pub unix_nanos: i128,
}

impl Timestamp {
    /// Whether the instant lies within the representable range.
    pub open spec fn wf(self) -> bool {
        -MAX_TIMESTAMP_NANOS <= self.unix_nanos <= MAX_TIMESTAMP_NANOS
    }

    /// The instant `days` whole days later.
    pub open spec fn spec_plus_days(self, days: int) -> Timestamp {
        Timestamp { unix_nanos: (self.unix_nanos + days * NANOS_PER_DAY) as i128 }
    }

    /// The instant `days` whole days later (`DateTime + TimeDelta::days`).
    /// Any `i64` day count fits: the sum stays far inside `i128`.
    pub fn plus_days(self, days: i64) -> (r: Timestamp)
        requires
            self.wf(),
        ensures
            r == self.spec_plus_days(days as int),
    {
        let wide = days as i128;
        assert(-0x1_0000_0000_0000_0000_0000_0000_0000 <= wide * NANOS_PER_DAY
            <= 0x1_0000_0000_0000_0000_0000_0000_0000) by (nonlinear_arith)
            requires
                i64::MIN <= wide <= i64::MAX,
                NANOS_PER_DAY == 86_400_000_000_000i128,
        ;
        Timestamp { unix_nanos: self.unix_nanos + wide * NANOS_PER_DAY }
    }

    /// Signed nanoseconds from `earlier` to `self` (`DateTime - DateTime`).
    pub fn nanos_since(self, earlier: Timestamp) -> (r: i128)
        requires
            self.wf(),
            earlier.wf(),
        ensures
            r == self.unix_nanos - earlier.unix_nanos,
    {
        self.unix_nanos - earlier.unix_nanos
    }
}

} // verus!
