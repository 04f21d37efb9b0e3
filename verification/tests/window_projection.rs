//! Base-window computation and projection scenarios, run against the real
//! timezone database.

use timezoners::date::DateYmd;
use timezoners::window::base_range;
use timezoners::window::project;
use timezoners::window::ProjectError;
use timezoners::window::RangeError;

#[test]
fn utc_base_range_is_whole_day() {
    let date = DateYmd::new(2024, 6, 1);
    let rng = base_range("UTC", date).unwrap();
    // 2024-06-01 is day 19875 since the epoch.
    assert_eq!(rng.start_ts, 19875 * 86400);
    assert_eq!(rng.end_ts, 19875 * 86400 + 86399);
    assert_eq!(rng.day_secs, 19875 * 86400);
}

#[test]
fn projecting_base_onto_itself_keeps_both_bounds_on_the_day() {
    let date = DateYmd::new(2024, 6, 1);
    let rng = base_range("UTC", date).unwrap();
    let p = project(&rng, &Some(String::from("UTC"))).unwrap();
    assert!(p.start_same_day);
    assert!(p.end_same_day);
    assert_eq!(p.start_tod, 0);
    assert_eq!(p.end_tod, 86399);
}

#[test]
fn tokyo_sees_utc_day_start_at_nine() {
    // UTC+9 in June (no daylight saving): the base day's midnight reads as
    // 09:00 the same day, its end as 08:59:59 the next day.
    let date = DateYmd::new(2024, 6, 1);
    let rng = base_range("UTC", date).unwrap();
    let p = project(&rng, &Some(String::from("Asia/Tokyo"))).unwrap();
    assert!(p.start_same_day);
    assert!(!p.end_same_day);
    assert_eq!(p.start_tod, 9 * 3600);
    assert_eq!(p.end_tod, 9 * 3600 - 1);
}

#[test]
fn negative_offset_zone_starts_on_previous_day() {
    // New York in June is UTC-4: the base day's midnight reads as 20:00 on
    // the previous day.
    let date = DateYmd::new(2024, 6, 1);
    let rng = base_range("UTC", date).unwrap();
    let p = project(&rng, &Some(String::from("America/New_York"))).unwrap();
    assert!(!p.start_same_day);
    assert!(p.end_same_day);
    assert_eq!(p.start_tod, 20 * 3600);
}

#[test]
fn unset_or_empty_target_is_unavailable() {
    let date = DateYmd::new(2024, 6, 1);
    let rng = base_range("UTC", date).unwrap();
    assert_eq!(project(&rng, &None).unwrap_err(), ProjectError::NoZone);
    assert_eq!(project(&rng, &Some(String::new())).unwrap_err(), ProjectError::NoZone);
}

#[test]
fn unknown_target_zone_is_reported() {
    let date = DateYmd::new(2024, 6, 1);
    let rng = base_range("UTC", date).unwrap();
    let err = project(&rng, &Some(String::from("Not/AZone"))).unwrap_err();
    assert_eq!(err, ProjectError::UnknownZone);
}

#[test]
fn invalid_date_is_rejected() {
    let err = base_range("UTC", DateYmd::new(2024, 2, 30)).unwrap_err();
    assert_eq!(err, RangeError::InvalidDate);
    let err = base_range("UTC", DateYmd::new(2024, 13, 1)).unwrap_err();
    assert_eq!(err, RangeError::InvalidDate);
}

#[test]
fn leap_day_is_accepted() {
    assert!(base_range("UTC", DateYmd::new(2024, 2, 29)).is_ok());
    assert_eq!(
        base_range("UTC", DateYmd::new(2023, 2, 29)).unwrap_err(),
        RangeError::InvalidDate
    );
}

#[test]
fn unknown_base_zone_is_rejected() {
    let err = base_range("Not/AZone", DateYmd::new(2024, 6, 1)).unwrap_err();
    assert_eq!(err, RangeError::UnknownZone);
}

#[test]
fn dst_zone_round_trips_through_its_own_window() {
    // A zone with daylight saving: projecting its own window onto itself
    // still lands exactly on the day's bounds.
    let date = DateYmd::new(2024, 6, 1);
    let rng = base_range("Europe/Berlin", date).unwrap();
    let p = project(&rng, &Some(String::from("Europe/Berlin"))).unwrap();
    assert!(p.start_same_day);
    assert!(p.end_same_day);
    assert_eq!(p.start_tod, 0);
    assert_eq!(p.end_tod, 86399);
}

#[test]
fn dst_skipped_midnight_is_reported() {
    // Chile's daylight saving starts at the end of 2024-09-07: the clocks
    // jump from 24:00 to 01:00, so 2024-09-08 has no local midnight.
    let err = base_range("America/Santiago", DateYmd::new(2024, 9, 8)).unwrap_err();
    assert_eq!(err, RangeError::SkippedTime);
}

#[test]
fn entirely_skipped_day_is_reported() {
    // Samoa crossed the date line at the end of 2011: 2011-12-30 never
    // happened there.
    let err = base_range("Pacific/Apia", DateYmd::new(2011, 12, 30)).unwrap_err();
    assert_eq!(err, RangeError::SkippedTime);
}

#[test]
fn half_hour_offset_zone_projects_exactly() {
    // India is UTC+5:30 year round.
    let date = DateYmd::new(2024, 6, 1);
    let rng = base_range("UTC", date).unwrap();
    let p = project(&rng, &Some(String::from("Asia/Kolkata"))).unwrap();
    assert!(p.start_same_day);
    assert_eq!(p.start_tod, 5 * 3600 + 30 * 60);
}
