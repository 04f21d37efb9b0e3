//! Trusted boundary to the IANA timezone database.
//!
//! Everything the engine needs from the timezone backend is the mapping
//! between naive local wall-clock times and absolute instants for a named
//! zone.  Three uninterpreted spec functions name what the zone database
//! determines: whether a zone identifier is in the catalog, the UTC offset in
//! effect at an instant, and whether a local wall-clock time exists (it can be
//! skipped by a daylight-saving jump).  The wrappers below are the only code
//! that calls the backend; every contract of the library is stated over these
//! names together with the calendar spec functions in `crate::date`.

use vstd::prelude::*;

use crate::date::valid_ymd;
use crate::date::civil_secs;

use chrono::Offset;
use chrono::TimeZone;
use chrono::Datelike;

verus! {

/// Earliest instant the backend can represent, in seconds since the epoch
/// (midnight of the minimal representable date).
pub const MIN_UTC_SECS: i64 = -8334601228800;

/// Latest instant the backend can represent (last second of the maximal
/// representable date).
pub const MAX_UTC_SECS: i64 = 8210266876799;

/// The string names a zone of the IANA catalog (exact, case-sensitive match).
pub uninterp spec fn zone_valid(zone: Seq<char>) -> bool;

/// Offset from UTC, in seconds, that the named zone applies at the absolute
/// instant `ts` (seconds since the epoch).  Only meaningful when
/// `zone_valid(zone)` holds.
pub uninterp spec fn zone_offset(zone: Seq<char>, ts: int) -> int;

/// The naive local time `local_secs` (seconds since the epoch, read as a
/// wall-clock time in the named zone) corresponds to at least one absolute
/// instant: it is not skipped by a daylight-saving jump and not out of the
/// backend's range.  Only meaningful when `zone_valid(zone)` holds.
pub uninterp spec fn zone_local_exists(zone: Seq<char>, local_secs: int) -> bool;

/// Relies on `chrono_tz::Tz::from_str` for catalog lookup, on
/// `chrono::TimeZone::from_local_datetime` (with `LocalResult::earliest`) to
/// resolve a local wall-clock time to an instant, and on
/// `chrono::NaiveDate::from_ymd_opt` to reject dates that do not exist: the
/// returned instant reads back as exactly the requested wall-clock time under
/// the offset the zone applies at that instant.
#[verifier::external_body]
pub(crate) fn resolve_local(zone: &str, y: i32, m: u8, d: u8, h: u8, mi: u8, s: u8) -> (r: Option<
    i64,
>)
    requires
        h < 24,
        mi < 60,
        s < 60,
    ensures
        r is Some ==> valid_ymd(y as int, m as int, d as int) && zone_valid(zone@)
            && zone_local_exists(
            zone@,
            civil_secs(y as int, m as int, d as int, h as int, mi as int, s as int),
        ),
        r is None ==> !(valid_ymd(y as int, m as int, d as int) && zone_valid(zone@)
            && zone_local_exists(
            zone@,
            civil_secs(y as int, m as int, d as int, h as int, mi as int, s as int),
        )),
        r matches Some(ts) ==> {
            &&& MIN_UTC_SECS <= ts <= MAX_UTC_SECS
            &&& -86400 < zone_offset(zone@, ts as int) < 86400
            &&& ts as int + zone_offset(zone@, ts as int) == civil_secs(
                y as int,
                m as int,
                d as int,
                h as int,
                mi as int,
                s as int,
            )
        },
{
    let date = match chrono::NaiveDate::from_ymd_opt(y, m as u32, d as u32) {
        Some(x) => x,
        None => return None,
    };
    let naive = match date.and_hms_opt(h as u32, mi as u32, s as u32) {
        Some(x) => x,
        None => return None,
    };
    let tz: chrono_tz::Tz = match zone.parse() {
        Ok(z) => z,
        Err(_) => return None,
    };
    tz.from_local_datetime(&naive).earliest().map(|dt| dt.timestamp())
}

/// Relies on `chrono_tz::Tz::from_str` for catalog lookup and on
/// `chrono::TimeZone::timestamp_opt` plus `Offset::fix` to read the UTC
/// offset the zone applies at an instant; `timestamp_opt` is total on
/// in-range instants.
#[verifier::external_body]
pub(crate) fn lookup_offset(zone: &str, ts: i64) -> (r: Option<i32>)
    ensures
        r is Some ==> zone_valid(zone@) && MIN_UTC_SECS <= ts <= MAX_UTC_SECS,
        r is None ==> !(zone_valid(zone@) && MIN_UTC_SECS <= ts <= MAX_UTC_SECS),
        r matches Some(off) ==> -86400 < off < 86400 && off as int == zone_offset(
            zone@,
            ts as int,
        ),
{
    let tz: chrono_tz::Tz = match zone.parse() {
        Ok(z) => z,
        Err(_) => return None,
    };
    match tz.timestamp_opt(ts, 0) {
        chrono::LocalResult::Single(dt) => Some(dt.offset().fix().local_minus_utc()),
        _ => None,
    }
}

/// Relies on `chrono::Local::now` and `Datelike`: the fields of the returned
/// triple form the machine's current local calendar date, which is always a
/// date that exists.  Nothing more can be said of a clock reading.
#[verifier::external_body]
pub(crate) fn today_ymd() -> (r: (i32, u8, u8))
    ensures
        valid_ymd(r.0 as int, r.1 as int, r.2 as int),
{
    let now = chrono::Local::now().date_naive();
    (now.year(), now.month() as u8, now.day() as u8)
}

} // verus!
