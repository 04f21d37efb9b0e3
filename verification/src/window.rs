//! Base-day window computation and its projection into other timezones.
//!
//! `base_range` turns a base timezone and a calendar date into the two
//! absolute instants bounding that date in the base zone: its midnight and
//! its last second (23:59:59).  `project` re-expresses those instants in a
//! target timezone's local calendar, flagging for each bound whether it
//! still falls on the base calendar day or has slipped to an adjacent one.

use vstd::prelude::*;

use crate::date::DateYmd;
use crate::date::civil_secs;
use crate::date::day_of;
use crate::date::tod_of;
use crate::date::normalize_tod;
use crate::date::lemma_day_number_bounds;
use crate::date::lemma_day_comparisons;
use crate::timefmt::time_label;
use crate::timefmt::wf_start_label;
use crate::timefmt::window_marker;
use crate::timefmt::format_time_label;
use crate::timefmt::push_char;
use crate::timefmt::lemma_time_label_inverts;
use crate::zones::MIN_UTC_SECS;
use crate::zones::MAX_UTC_SECS;
use crate::zones::zone_valid;
use crate::zones::zone_offset;
use crate::zones::zone_local_exists;
use crate::zones::resolve_local;
use crate::zones::lookup_offset;
use vstd::arithmetic::div_mod::lemma_mod_multiples_basic;

verus! {

/// The absolute instants bounding one calendar day in the base timezone.
#[derive(Clone, Copy, Debug)]
pub struct ZonedRange {
    /// Instant of the base day's local midnight, seconds since the epoch.
    pub start_ts: i64,
    /// Instant of the base day's local 23:59:59.
    pub end_ts: i64,
    /// Naive local timestamp of the base day's midnight: the base day is
    /// `[day_secs, day_secs + 86400)` in base-local wall-clock seconds.
    pub day_secs: i64,
}

impl ZonedRange {
    /// Both instants are in the representable range and `day_secs` is a
    /// midnight (a whole multiple of 86400 seconds).
    pub open spec fn wf(self) -> bool {
        &&& MIN_UTC_SECS <= self.start_ts <= MAX_UTC_SECS
        &&& MIN_UTC_SECS <= self.end_ts <= MAX_UTC_SECS
        &&& self.day_secs % 86400 == 0
        &&& -8_400_000_000_000 < self.day_secs < 8_400_000_000_000
    }
}

/// Why no window could be computed for a base zone and date.
#[derive(Clone, Copy, PartialEq, Eq, Structural, Debug)]
pub enum RangeError {
    /// The date does not exist or lies outside the supported year range.
    InvalidDate,
    /// The base zone identifier is not in the catalog.
    UnknownZone,
    /// A daylight-saving jump skips the day's boundary wall-clock time in
    /// this zone, so the window's bound does not exist there.
    SkippedTime,
}

/// Why a window could not be projected onto a target zone.
#[derive(Clone, Copy, PartialEq, Eq, Structural, Debug)]
pub enum ProjectError {
    /// No target zone is assigned (or it is the empty string): nothing to
    /// display.
    NoZone,
    /// The target zone identifier is not in the catalog.
    UnknownZone,
}

/// A window's bounds re-expressed in a target zone's local calendar.
#[derive(Clone, Copy, PartialEq, Eq, Structural, Debug)]
pub struct Projection {
    /// Target-local wall-clock time of day of the window start, in seconds.
    pub start_tod: u32,
    /// Target-local wall-clock time of day of the window end, in seconds.
    pub end_tod: u32,
    /// The target-local calendar date of the window start is not before the
    /// base date.
    pub start_same_day: bool,
    /// The target-local calendar date of the window end is not after the
    /// base date.
    pub end_same_day: bool,
}

/// An optional zone string is assigned and non-empty.
pub open spec fn zone_set(z: Option<Seq<char>>) -> bool {
    z matches Some(s) && s.len() > 0
}

/// The pair of instants is a window for `date` in the base zone: the first
/// reads as the date's midnight in that zone, the second as its 23:59:59.
pub open spec fn window_instants_ok(base: Seq<char>, date: DateYmd, sts: int, ets: int) -> bool {
    &&& sts + zone_offset(base, sts) == date.midnight_secs()
    &&& ets + zone_offset(base, ets) == date.midnight_secs() + 86399
}

/// The projection of the window instants `(sts, ets)` onto the target zone
/// `tz`, for a base day whose local midnight timestamp is `base_mid`: each
/// bound's target-local time of day, and whether its target-local calendar
/// day still matches the base day.
pub open spec fn spec_projection(tz: Seq<char>, sts: int, ets: int, base_mid: int) -> Projection {
    let ls = sts + zone_offset(tz, sts);
    let le = ets + zone_offset(tz, ets);
    (Projection {
        start_tod: tod_of(ls) as u32,
        end_tod: tod_of(le) as u32,
        start_same_day: day_of(ls) >= day_of(base_mid),
        end_same_day: !(day_of(le) > day_of(base_mid + 86399)),
    })
}

/// Compute the absolute instants bounding `date` in the base zone: its
/// midnight and its 23:59:59, together with the naive timestamp of that
/// midnight.
pub fn base_range(zone: &str, date: DateYmd) -> (r: Result<ZonedRange, RangeError>)
    ensures
        r matches Ok(rng) ==> {
            &&& rng.wf()
            &&& date.valid()
            &&& zone_valid(zone@)
            &&& rng.day_secs == date.midnight_secs()
            &&& rng.start_ts + zone_offset(zone@, rng.start_ts as int) == rng.day_secs
            &&& rng.end_ts + zone_offset(zone@, rng.end_ts as int) == rng.day_secs + 86399
        },
        r == Err::<ZonedRange, RangeError>(RangeError::InvalidDate) <==> !date.valid(),
        r == Err::<ZonedRange, RangeError>(RangeError::UnknownZone) <==> date.valid()
            && !zone_valid(zone@),
        r == Err::<ZonedRange, RangeError>(RangeError::SkippedTime) <==> date.valid()
            && zone_valid(zone@) && !(zone_local_exists(zone@, date.midnight_secs())
            && zone_local_exists(zone@, date.midnight_secs() + 86399)),
{
    if !date.is_valid() {
        return Err(RangeError::InvalidDate);
    }
    let start_ts = match resolve_local(zone, date.year, date.month, date.day, 0, 0, 0) {
        Some(ts) => ts,
        None => {
            return match lookup_offset(zone, 0) {
                None => Err(RangeError::UnknownZone),
                Some(_) => Err(RangeError::SkippedTime),
            };
        },
    };
    let end_ts = match resolve_local(zone, date.year, date.month, date.day, 23, 59, 59) {
        Some(ts) => ts,
        None => {
            return Err(RangeError::SkippedTime);
        },
    };
    let off = match lookup_offset(zone, start_ts) {
        Some(o) => o,
        None => {
            proof {
                assert(false);
            }
            return Err(RangeError::UnknownZone);
        },
    };
    let day_secs: i64 = start_ts + off as i64;
    proof {
        lemma_day_number_bounds(date.year as int, date.month as int, date.day as int);
        lemma_mod_multiples_basic(date.day_number(), 86400);
    }
    Ok(ZonedRange { start_ts, end_ts, day_secs })
}

/// Re-express a window's bounds in the target zone's local calendar.
///
/// Each flag compares the target-local calendar day of a bound with the
/// base calendar day: the start flag is true when the start has not slipped
/// to an earlier day, the end flag when the end has not slipped to a later
/// one.
pub fn project(rng: &ZonedRange, target: &Option<String>) -> (r: Result<Projection, ProjectError>)
    requires
        rng.wf(),
    ensures
        r == Err::<Projection, ProjectError>(ProjectError::NoZone) <==> !zone_set(
            target.deep_view(),
        ),
        r == Err::<Projection, ProjectError>(ProjectError::UnknownZone) <==> zone_set(
            target.deep_view(),
        ) && !zone_valid(target.deep_view()->Some_0),
        r matches Ok(p) ==> {
            let tz = target.deep_view()->Some_0;
            &&& zone_set(target.deep_view())
            &&& zone_valid(tz)
            &&& p == spec_projection(tz, rng.start_ts as int, rng.end_ts as int, rng.day_secs as int)
            &&& p.start_tod < 86400
            &&& p.end_tod < 86400
        },
{
    let tz: &String = match target {
        None => {
            return Err(ProjectError::NoZone);
        },
        Some(t) => t,
    };
    if tz.as_str().unicode_len() == 0 {
        return Err(ProjectError::NoZone);
    }
    let off_s = match lookup_offset(tz.as_str(), rng.start_ts) {
        Some(o) => o,
        None => {
            return Err(ProjectError::UnknownZone);
        },
    };
    let off_e = match lookup_offset(tz.as_str(), rng.end_ts) {
        Some(o) => o,
        None => {
            proof {
                assert(false);
            }
            return Err(ProjectError::UnknownZone);
        },
    };
    let ls: i64 = rng.start_ts + off_s as i64;
    let le: i64 = rng.end_ts + off_e as i64;
    let start_tod = normalize_tod(ls);
    let end_tod = normalize_tod(le);
    let start_same_day = ls >= rng.day_secs;
    let end_same_day = !(le >= rng.day_secs + 86400);
    proof {
        lemma_day_comparisons(ls as int, rng.day_secs as int);
        lemma_day_comparisons(le as int, rng.day_secs as int);
    }
    Ok(Projection { start_tod, end_tod, start_same_day, end_same_day })
}

/// The label a projected bound displays: its 12-hour wall-clock label, with
/// the `"* "` adjacent-day prefix when the bound does not fall on the base
/// calendar day.
pub open spec fn window_label(tod: int, same_day: bool) -> Seq<char> {
    let plain = time_label(tod / 3600, (tod / 60) % 60);
    if same_day {
        plain
    } else {
        window_marker() + plain
    }
}

/// Format one projected bound as a display label.
pub fn format_window_label(tod: u32, same_day: bool) -> (r: String)
    requires
        tod < 86400,
    ensures
        r@ == window_label(tod as int, same_day),
        wf_start_label(r@),
{
    let h: u32 = tod / 3600;
    let mi: u32 = (tod / 60) % 60;
    let plain = format_time_label(h, mi);
    proof {
        lemma_time_label_inverts(h as int, mi as int);
    }
    if same_day {
        plain
    } else {
        let mut s = String::new();
        push_char(&mut s, '*');
        push_char(&mut s, ' ');
        s.append(plain.as_str());
        proof {
            assert(s@ =~= window_marker() + time_label(h as int, mi as int));
            assert(s@.skip(2) =~= time_label(h as int, mi as int));
        }
        s
    }
}

/// Projecting a base day's window onto the base zone itself keeps both
/// bounds on the base calendar day and shows the window's own wall-clock
/// bounds: midnight (00:00:00) and 23:59:59.
pub proof fn lemma_project_onto_self(base: Seq<char>, date: DateYmd, sts: int, ets: int)
    requires
        window_instants_ok(base, date, sts, ets),
    ensures
        ({
            let p = spec_projection(base, sts, ets, date.midnight_secs());
            &&& p.start_same_day
            &&& p.end_same_day
            &&& p.start_tod == 0
            &&& p.end_tod == 86399
        }),
{
    let mid = date.midnight_secs();
    lemma_mod_multiples_basic(date.day_number(), 86400);
    lemma_day_comparisons(mid, mid);
    lemma_day_comparisons(mid + 86399, mid);
}

} // verus!
