//! Instants on the time line, as a count of nanoseconds since the Unix epoch.

use vstd::prelude::*;
use crate::local_time::{read_clock, render_local};

verus! {

/// Nanoseconds in one second.
pub const NANOS_PER_SECOND: i128 = 1_000_000_000;

/// Nanoseconds in one day of exactly 86 400 seconds.
pub const NANOS_PER_DAY: i128 = 86_400_000_000_000;

/// The layout used wherever an instant is shown: `2024-03-01 17:45:09`.
pub const DATE_PATTERN: &'static str = "%Y-%m-%d %H:%M:%S";

/// Shown in place of a date that cannot be rendered.
pub const UNKNOWN_DATE: &'static str = "unknown";

/// An instant, independent of any time zone.
#[derive(Debug, Clone, Copy, PartialEq, Eq, Structural)]
pub struct Timestamp {
    /// Nanoseconds since 1970-01-01 00:00:00 UTC; negative before it.
    pub nanos: i128,
}

/// Integer division that rounds toward zero.
pub open spec fn div_toward_zero(x: int, d: int) -> int
    recommends
        d > 0,
{
    if x >= 0 {
        x / d
    } else {
        -((-x) / d)
    }
}

/// `x` held to the range of `i64`.
pub open spec fn clamp_i64(x: int) -> int {
    if x > i64::MAX {
        i64::MAX as int
    } else if x < i64::MIN {
        i64::MIN as int
    } else {
        x
    }
}

/// `x` held to the range of `i128`.
pub open spec fn clamp_i128(x: int) -> int {
    if x > i128::MAX {
        i128::MAX as int
    } else if x < i128::MIN {
        i128::MIN as int
    } else {
        x
    }
}

impl Timestamp {
    /// The instant `nanos` nanoseconds after the epoch.
    pub fn from_nanos(nanos: i128) -> (t: Timestamp)
        ensures
            t.nanos == nanos,
    {
        Timestamp { nanos }
    }

    /// The instant `secs` whole seconds and `subsec_nanos` nanoseconds after
    /// the epoch.
    pub fn from_parts(secs: i64, subsec_nanos: u32) -> (t: Timestamp)
        ensures
            t.nanos == secs * NANOS_PER_SECOND + subsec_nanos,
    {
        let whole: i128 = secs as i128 * NANOS_PER_SECOND;
        Timestamp { nanos: whole + subsec_nanos as i128 }
    }

    /// The current instant, read from the system clock. Whatever the clock
    /// reads, the instant is the one that its whole seconds and the
    /// nanoseconds within the second make up.
    pub fn now() -> (t: Timestamp)
        ensures
            exists|secs: i64, subsec_nanos: u32|
                t == #[trigger] Timestamp::spec_from_parts(secs, subsec_nanos),
    {
        let parts = read_clock();
        let t = Timestamp::from_parts(parts.0, parts.1);
        assert(t == Timestamp::spec_from_parts(parts.0, parts.1));
        t
    }

    /// The instant `secs` whole seconds and `subsec_nanos` nanoseconds after
    /// the epoch.
    pub open spec fn spec_from_parts(secs: i64, subsec_nanos: u32) -> Timestamp {
        Timestamp { nanos: (secs * NANOS_PER_SECOND + subsec_nanos) as i128 }
    }

    /// Whole seconds since the epoch, rounded toward the past.
    pub open spec fn spec_seconds(self) -> int {
        self.nanos as int / NANOS_PER_SECOND as int
    }

    /// Nanoseconds past the whole second of `spec_seconds`.
    pub open spec fn spec_subsec_nanos(self) -> int {
        self.nanos as int % NANOS_PER_SECOND as int
    }

    /// Splits the instant into whole seconds since the epoch (rounded toward
    /// the past) and the nanoseconds past that second. `None` when the
    /// seconds do not fit in an `i64`.
    pub fn to_parts(&self) -> (parts: Option<(i64, u32)>)
        ensures
            parts matches Some(p) ==> p.0 == self.spec_seconds() && p.1 == self.spec_subsec_nanos(),
            parts is Some <==> i64::MIN <= self.spec_seconds() <= i64::MAX,
    {
        let quotient: i128;
        let remainder: i128;
        if self.nanos >= 0 {
            quotient = self.nanos / NANOS_PER_SECOND;
            remainder = self.nanos % NANOS_PER_SECOND;
        } else {
            // floor division of a negative count by way of a non-negative one
            let flipped: i128 = -(self.nanos + 1);
            let q: i128 = flipped / NANOS_PER_SECOND;
            let r: i128 = flipped % NANOS_PER_SECOND;
            quotient = -q - 1;
            remainder = NANOS_PER_SECOND - 1 - r;
            assert(self.nanos == quotient * 1_000_000_000 + remainder);
            assert(quotient == self.nanos as int / 1_000_000_000 && remainder == self.nanos as int
                % 1_000_000_000) by {
                vstd::arithmetic::div_mod::lemma_fundamental_div_mod_converse(
                    self.nanos as int,
                    1_000_000_000,
                    quotient as int,
                    remainder as int,
                );
            }
        }
        if quotient < i64::MIN as i128 || quotient > i64::MAX as i128 {
            None
        } else {
            Some((quotient as i64, remainder as u32))
        }
    }

    /// True when `self` lies strictly before `other`.
    pub fn is_before(&self, other: &Timestamp) -> (r: bool)
        ensures
            r == (self.nanos < other.nanos),
    {
        self.nanos < other.nanos
    }

    /// True when `self` lies strictly after `other`.
    pub fn is_after(&self, other: &Timestamp) -> (r: bool)
        ensures
            r == (self.nanos > other.nanos),
    {
        self.nanos > other.nanos
    }

    /// The instant `days` days of 86 400 seconds before `self`, held to the
    /// representable range.
    pub fn minus_days(&self, days: u32) -> (t: Timestamp)
        ensures
            t.nanos == clamp_i128(self.nanos - days * NANOS_PER_DAY),
    {
        let span: i128 = days as i128 * NANOS_PER_DAY;
        match self.nanos.checked_sub(span) {
            Some(nanos) => Timestamp { nanos },
            None => Timestamp { nanos: i128::MIN },
        }
    }

    /// Whole days from `earlier` to `self`, rounded toward zero: negative when
    /// `earlier` is in fact the later of the two.
    pub open spec fn spec_days_since(self, earlier: Timestamp) -> int {
        clamp_i64(div_toward_zero(self.nanos - earlier.nanos, NANOS_PER_DAY as int))
    }

    /// Whole days elapsed from `earlier` to `self`, rounded toward zero and
    /// held to the range of `i64`.
    pub fn days_since(&self, earlier: &Timestamp) -> (days: i64)
        ensures
            days == self.spec_days_since(*earlier),
    {
        match self.nanos.checked_sub(earlier.nanos) {
            Some(span) => {
                let whole: i128 = if span >= 0 {
                    span / NANOS_PER_DAY
                } else if span == i128::MIN {
                    // the one span whose negation does not fit
                    let w: i128 = -((i128::MAX / NANOS_PER_DAY));
                    assert((-(i128::MIN as int)) / 86_400_000_000_000 == i128::MAX as int
                        / 86_400_000_000_000) by (nonlinear_arith);
                    w
                } else {
                    -((-span) / NANOS_PER_DAY)
                };
                if whole > i64::MAX as i128 {
                    i64::MAX
                } else if whole < i64::MIN as i128 {
                    i64::MIN
                } else {
                    whole as i64
                }
            },
            None => {
                proof {
                    let span = self.nanos - earlier.nanos;
                    if span > 0 {
                        assert(span > i128::MAX);
                        assert(span / 86_400_000_000_000 > i64::MAX) by (nonlinear_arith)
                            requires
                                span > 0x7fff_ffff_ffff_ffff_ffff_ffff_ffff_ffff,
                        ;
                    } else {
                        assert(span < i128::MIN);
                        assert((-span) / 86_400_000_000_000 > i64::MAX) by (nonlinear_arith)
                            requires
                                -span > 0x7fff_ffff_ffff_ffff_ffff_ffff_ffff_ffff,
                        ;
                    }
                }
                if self.nanos > earlier.nanos {
                    i64::MAX
                } else {
                    i64::MIN
                }
            },
        }
    }

    /// True when `self` is later than the instant `days` days before `now`.
    pub open spec fn spec_within_days(self, now: Timestamp, days: int) -> bool {
        self.nanos > now.nanos - days * NANOS_PER_DAY
    }

    /// True when `self` is later than the instant `days` days before `now`.
    pub fn within_days(&self, now: &Timestamp, days: u32) -> (r: bool)
        ensures
            r == self.spec_within_days(*now, days as int),
    {
        let span: i128 = days as i128 * NANOS_PER_DAY;
        match self.nanos.checked_add(span) {
            Some(shifted) => shifted > now.nanos,
            None => true,
        }
    }

    /// True when `self` is earlier than the instant `days` days before `now`.
    pub open spec fn spec_older_than_days(self, now: Timestamp, days: int) -> bool {
        self.nanos < now.nanos - days * NANOS_PER_DAY
    }

    /// True when `self` is earlier than the instant `days` days before `now`.
    pub fn older_than_days(&self, now: &Timestamp, days: u32) -> (r: bool)
        ensures
            r == self.spec_older_than_days(*now, days as int),
    {
        let span: i128 = days as i128 * NANOS_PER_DAY;
        match self.nanos.checked_add(span) {
            Some(shifted) => shifted < now.nanos,
            None => false,
        }
    }

    /// The text for a rendering attempt: the rendered date, or
    /// [`UNKNOWN_DATE`] where there is none.
    pub fn date_text(rendered: Option<String>) -> (text: String)
        ensures
            rendered matches Some(s) ==> text@ == s@,
            rendered is None ==> text@ == UNKNOWN_DATE@,
    {
        match rendered {
            Some(s) => s,
            None => String::from_str(UNKNOWN_DATE),
        }
    }

    /// The instant in the machine's local time zone, laid out as
    /// [`DATE_PATTERN`]; [`UNKNOWN_DATE`] for an instant outside the calendar.
    pub fn formatted(&self) -> (text: String)
        ensures
            !(i64::MIN <= self.spec_seconds() <= i64::MAX) ==> text@ == UNKNOWN_DATE@,
    {
        match self.to_parts() {
            Some(parts) => Timestamp::date_text(render_local(parts.0, parts.1, DATE_PATTERN)),
            None => Timestamp::date_text(None),
        }
    }
}

} // verus!
