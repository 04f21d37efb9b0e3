//! Day-progress offsets for the daylight visualization.
//!
//! Each offset is a number of quarter-hour-normalized minutes: a fraction of
//! the 24-hour day expressed as `minutes / 1440`.  The renderer divides by
//! 1440 to obtain its alignment fractions; the engine itself never handles
//! fractional values.  All functions read only the wall-clock time of day of
//! the given local instant, so every result is periodic in whole days.

use vstd::prelude::*;

use crate::date::tod_of;
use crate::date::normalize_tod;
use vstd::arithmetic::div_mod::lemma_mod_sub_multiples_vanish;

verus! {

/// Truncated (round-toward-zero) division, the rounding a signed minute
/// count uses.
pub open spec fn trunc_div(a: int, b: int) -> int {
    if a >= 0 {
        a / b
    } else {
        -((-a) / b)
    }
}

/// Minutes from the local wall-clock time of day of `local_secs` forward to
/// the reference time of day `rh:rm:rs`, wrapping by a full day when the
/// reference lies behind, truncated to whole minutes.
pub open spec fn day_fraction_minutes(local_secs: int, rh: int, rm: int, rs: int) -> int {
    let tod = tod_of(local_secs);
    let m = trunc_div(rh * 3600 + rm * 60 + rs - tod, 60);
    if m < 0 {
        m + 1440
    } else {
        m
    }
}

/// Minutes of the day already elapsed at the local wall-clock time of
/// `local_secs`, counted as `1440 - (whole minutes until 23:59:59)`.
pub open spec fn day_progress_minutes(local_secs: int) -> int {
    1440 - (86399 - tod_of(local_secs)) / 60
}

/// Offset of the reference time of day `rh:rm:rs` from the wall-clock time
/// of the local instant, in minutes of a 1440-minute day.  Divided by 1440
/// this is the fraction of the day at which the reference time falls when
/// the day is drawn starting at the instant's own wall-clock time.
pub fn offset_for_time(local_secs: i64, rh: u8, rm: u8, rs: u8) -> (r: u32)
    requires
        crate::zones::MIN_UTC_SECS - 86400 <= local_secs <= crate::zones::MAX_UTC_SECS + 86400,
        rh < 24,
        rm < 60,
        rs < 60,
    ensures
        r == day_fraction_minutes(local_secs as int, rh as int, rm as int, rs as int),
        r < 1440,
{
    let tod: u32 = normalize_tod(local_secs);
    let refsecs: u32 = rh as u32 * 3600 + rm as u32 * 60 + rs as u32;
    if refsecs >= tod {
        (refsecs - tod) / 60
    } else {
        let m = (tod - refsecs) / 60;
        if m == 0 {
            0
        } else {
            1440 - m
        }
    }
}

/// Offset of midday (12:00:00) from the wall-clock time of the local
/// instant, in minutes of a 1440-minute day.
pub fn offset_for_midday(local_secs: i64) -> (r: u32)
    requires
        crate::zones::MIN_UTC_SECS - 86400 <= local_secs <= crate::zones::MAX_UTC_SECS + 86400,
    ensures
        r == day_fraction_minutes(local_secs as int, 12, 0, 0),
        r < 1440,
{
    offset_for_time(local_secs, 12, 0, 0)
}

/// How far through its day the local instant's wall-clock time falls, in
/// minutes of a 1440-minute day; divided by 1440 this aligns the daylight
/// gradient horizontally.
pub fn day_percent_complete(local_secs: i64) -> (r: u32)
    requires
        crate::zones::MIN_UTC_SECS - 86400 <= local_secs <= crate::zones::MAX_UTC_SECS + 86400,
    ensures
        r == day_progress_minutes(local_secs as int),
        r <= 1440,
{
    let tod: u32 = normalize_tod(local_secs);
    1440 - (86399 - tod) / 60
}

/// Every day-fraction offset is periodic with a period of one day (96
/// slider steps): shifting the local instant by 24 hours leaves it
/// unchanged.
pub proof fn lemma_offset_periodic(local_secs: int, rh: int, rm: int, rs: int)
    ensures
        day_fraction_minutes(local_secs + 86400, rh, rm, rs) == day_fraction_minutes(
            local_secs,
            rh,
            rm,
            rs,
        ),
        day_progress_minutes(local_secs + 86400) == day_progress_minutes(local_secs),
{
    lemma_mod_sub_multiples_vanish(local_secs + 86400, 86400);
}

} // verus!
