//! Calendar dates and their mapping to day numbers and naive timestamps.
//!
//! A calendar day is modelled as a proleptic Gregorian date `(year, month,
//! day)`.  `days_from_civil` gives its day number relative to the Unix epoch
//! (1970-01-01 is day 0), and `civil_secs` the naive timestamp of a wall-clock
//! time on that day.  These spec functions are the reference that the trusted
//! timezone wrappers are stated against.

use vstd::prelude::*;

use vstd::arithmetic::div_mod::lemma_fundamental_div_mod;
use vstd::arithmetic::div_mod::lemma_fundamental_div_mod_converse_mod;
use vstd::arithmetic::div_mod::lemma_fundamental_div_mod_converse_div;
use vstd::arithmetic::div_mod::lemma_mod_division_less_than_divisor;
use vstd::arithmetic::div_mod::lemma_div_is_ordered;
use vstd::arithmetic::mul::lemma_mul_is_distributive_sub_other_way;

verus! {

/// Widest year range a date may use; matches the range of dates that the
/// chrono backend can represent, so that any `DateYmd` accepted as valid can
/// be handed to the timezone wrappers.
pub const MIN_YEAR: i32 = -262143;

/// See `MIN_YEAR`.
pub const MAX_YEAR: i32 = 262142;

/// True for years with a February 29 in the proleptic Gregorian calendar.
pub open spec fn is_leap_year(y: int) -> bool {
    (y % 4 == 0 && y % 100 != 0) || y % 400 == 0
}

/// Number of days in the given month.
pub open spec fn days_in_month(y: int, m: int) -> int {
    if m == 2 {
        if is_leap_year(y) {
            29
        } else {
            28
        }
    } else if m == 4 || m == 6 || m == 9 || m == 11 {
        30
    } else {
        31
    }
}

/// A calendar date that both exists in the proleptic Gregorian calendar and
/// lies in the supported year range.
pub open spec fn valid_ymd(y: int, m: int, d: int) -> bool {
    &&& MIN_YEAR <= y <= MAX_YEAR
    &&& 1 <= m <= 12
    &&& 1 <= d <= days_in_month(y, m)
}

/// Day number of a proleptic Gregorian date, with 1970-01-01 as day 0.
pub open spec fn days_from_civil(y: int, m: int, d: int) -> int {
    let yy = if m <= 2 { y - 1 } else { y };
    let era = yy / 400;
    let yoe = yy - era * 400;
    let mp = if m > 2 { m - 3 } else { m + 9 };
    let doy = (153 * mp + 2) / 5 + d - 1;
    let doe = yoe * 365 + yoe / 4 - yoe / 100 + doy;
    era * 146097 + doe - 719468
}

/// Naive (zone-less) timestamp of a wall-clock time on the given date:
/// seconds since 1970-01-01 00:00:00 counted without leap seconds.
pub open spec fn civil_secs(y: int, m: int, d: int, h: int, mi: int, s: int) -> int {
    days_from_civil(y, m, d) * 86400 + h * 3600 + mi * 60 + s
}

/// A calendar date: year, month and day, with no time component.
#[derive(Clone, Copy, PartialEq, Eq, Structural, Debug)]
pub struct DateYmd {
    pub year: i32,
    pub month: u8,
    pub day: u8,
}

impl DateYmd {
    /// The date exists and is in the supported year range.
    pub open spec fn valid(self) -> bool {
        valid_ymd(self.year as int, self.month as int, self.day as int)
    }

    /// Day number of this date, 1970-01-01 being day 0.
    pub open spec fn day_number(self) -> int {
        days_from_civil(self.year as int, self.month as int, self.day as int)
    }

    /// Naive timestamp of this date's midnight.
    pub open spec fn midnight_secs(self) -> int {
        civil_secs(self.year as int, self.month as int, self.day as int, 0, 0, 0)
    }

    /// Build a date from its fields (validity is checked where the date is
    /// used).
    pub fn new(year: i32, month: u8, day: u8) -> (r: Self)
        ensures
            r.year == year && r.month == month && r.day == day,
    {
        DateYmd { year, month, day }
    }

    /// Runtime check of `valid`.
    pub fn is_valid(&self) -> (r: bool)
        ensures
            r == self.valid(),
    {
        let m_ok = 1 <= self.month && self.month <= 12;
        if !(MIN_YEAR <= self.year && self.year <= MAX_YEAR && m_ok) {
            return false;
        }
        let dim: u8 = if self.month == 2 {
            let y = self.year;
            let leap = (y % 4 == 0 && y % 100 != 0) || y % 400 == 0;
            if leap {
                29
            } else {
                28
            }
        } else if self.month == 4 || self.month == 6 || self.month == 9 || self.month == 11 {
            30
        } else {
            31
        };
        1 <= self.day && self.day <= dim
    }
}

/// The day number of any valid date stays well within the range where
/// second-resolution timestamps fit comfortably in an `i64`.
pub proof fn lemma_day_number_bounds(y: int, m: int, d: int)
    requires
        valid_ymd(y, m, d),
    ensures
        -96_500_000 < days_from_civil(y, m, d) < 96_500_000,
{
}

/// Wall-clock time of day, in seconds, of a naive local timestamp.
pub open spec fn tod_of(t: int) -> int {
    t % 86400
}

/// Calendar day number (1970-01-01 is day 0) of a naive local timestamp.
pub open spec fn day_of(t: int) -> int {
    t / 86400
}

/// Compute the wall-clock time of day of a naive local timestamp.
pub fn normalize_tod(t: i64) -> (r: u32)
    requires
        -9_300_000_000_000 <= t <= 9_300_000_000_000,
    ensures
        r == tod_of(t as int),
        r < 86400,
{
    if t >= 0 {
        let r = (t as u64 % 86400) as u32;
        proof {
            lemma_mod_division_less_than_divisor(t as int, 86400);
        }
        r
    } else {
        let neg: u64 = ((-t) as u64) % 86400;
        proof {
            lemma_mod_division_less_than_divisor(-t as int, 86400);
            lemma_fundamental_div_mod(-t as int, 86400);
            let q = (-t as int) / 86400;
            if neg == 0 {
                lemma_fundamental_div_mod_converse_mod(t as int, 86400, -q, 0);
            } else {
                lemma_mul_is_distributive_sub_other_way(86400, -q, 1);
                lemma_fundamental_div_mod_converse_mod(
                    t as int,
                    86400,
                    -q - 1,
                    86400 - neg,
                );
            }
        }
        if neg == 0 {
            0
        } else {
            (86400 - neg) as u32
        }
    }
}

/// Comparing the calendar day of a local timestamp against a day whose
/// midnight timestamp is `base` reduces to plain timestamp comparisons:
/// the day of `l` is at or after the day of `base` exactly when `l` is at or
/// after `base`'s midnight, and strictly after it exactly when `l` has
/// passed the end of that day.
pub proof fn lemma_day_comparisons(l: int, base: int)
    requires
        base % 86400 == 0,
    ensures
        (day_of(l) >= day_of(base)) == (l >= base),
        (day_of(l) > day_of(base + 86399)) == (l >= base + 86400),
        day_of(base + 86399) == day_of(base),
        tod_of(base) == 0,
        tod_of(base + 86399) == 86399,
{
    let q = day_of(base);
    lemma_fundamental_div_mod(base, 86400);
    assert(base == 86400 * q);
    lemma_fundamental_div_mod_converse_div(base + 86399, 86400, q, 86399);
    lemma_fundamental_div_mod_converse_mod(base + 86399, 86400, q, 86399);
    lemma_fundamental_div_mod(l, 86400);
    lemma_mod_division_less_than_divisor(l, 86400);
    if l >= base {
        lemma_div_is_ordered(base, l, 86400);
    } else {
        lemma_mul_is_distributive_sub_other_way(86400, q, 1);
        lemma_fundamental_div_mod_converse_div(base - 1, 86400, q - 1, 86399);
        lemma_div_is_ordered(l, base - 1, 86400);
    }
    if l >= base + 86400 {
        lemma_mul_is_distributive_sub_other_way(86400, q + 1, 0);
        assert(base + 86400 == 86400 * (q + 1) + 0);
        lemma_fundamental_div_mod_converse_div(base + 86400, 86400, q + 1, 0);
        lemma_div_is_ordered(base + 86400, l, 86400);
    } else {
        lemma_div_is_ordered(l, base + 86399, 86400);
    }
}

} // verus!
