//! Label formatting/parsing and calendar-date validity.

use timezoners::date::DateYmd;
use timezoners::timefmt::format_time_label;
use timezoners::timefmt::parse_start_label;
use timezoners::timefmt::parse_time_label;

#[test]
fn formats_twelve_hour_labels() {
    assert_eq!(format_time_label(0, 0), "12:00 am");
    assert_eq!(format_time_label(0, 5), "12:05 am");
    assert_eq!(format_time_label(1, 0), "01:00 am");
    assert_eq!(format_time_label(11, 59), "11:59 am");
    assert_eq!(format_time_label(12, 0), "12:00 pm");
    assert_eq!(format_time_label(13, 15), "01:15 pm");
    assert_eq!(format_time_label(23, 59), "11:59 pm");
}

#[test]
fn parsing_inverts_formatting() {
    for h in 0..24u32 {
        for m in [0u32, 1, 15, 30, 59] {
            let label = format_time_label(h, m);
            assert_eq!(parse_time_label(label.as_str()), (h, m));
        }
    }
}

#[test]
fn start_labels_may_carry_the_adjacent_day_marker() {
    assert_eq!(parse_start_label("09:00 am"), (false, 9, 0));
    assert_eq!(parse_start_label("* 08:00 pm"), (true, 20, 0));
}

#[test]
fn date_validity_follows_the_calendar() {
    assert!(DateYmd::new(2024, 2, 29).is_valid());
    assert!(!DateYmd::new(2023, 2, 29).is_valid());
    assert!(!DateYmd::new(1900, 2, 29).is_valid());
    assert!(DateYmd::new(2000, 2, 29).is_valid());
    assert!(DateYmd::new(2024, 4, 30).is_valid());
    assert!(!DateYmd::new(2024, 4, 31).is_valid());
    assert!(!DateYmd::new(2024, 0, 1).is_valid());
    assert!(!DateYmd::new(2024, 1, 0).is_valid());
    assert!(DateYmd::new(2024, 12, 31).is_valid());
    assert!(!DateYmd::new(300000, 1, 1).is_valid());
}
