//! Slider-to-label conversion scenarios.

use timezoners::slider::label_for;

#[test]
fn index_zero_is_identity_at_midnight() {
    assert_eq!(label_for(0, "12:00 am"), "12:00 am");
}

#[test]
fn ten_hours_from_midnight() {
    // 40 quarter-hour steps = 10 hours; still inside the same day, so no
    // rollover marker.
    assert_eq!(label_for(40, "12:00 am"), "10:00 am");
}

#[test]
fn every_quarter_hour_step_advances_fifteen_minutes() {
    let mut expected_minutes: u32 = 0;
    for idx in 0..=95u8 {
        let label = label_for(idx, "12:00 am");
        let bare = if label.len() > 8 { &label[..8] } else { &label[..] };
        let h12: u32 = bare[0..2].parse().unwrap();
        let mi: u32 = bare[3..5].parse().unwrap();
        let pm = &bare[6..7] == "p";
        let h24 = h12 % 12 + if pm { 12 } else { 0 };
        assert_eq!(60 * h24 + mi, expected_minutes % 1440);
        expected_minutes += 15;
    }
}

#[test]
fn rolling_past_midnight_adds_next_day_suffix() {
    // 23:00 + 1 hour crosses into the next day.
    assert_eq!(label_for(4, "11:00 pm"), "12:00 am =>");
}

#[test]
fn next_day_suffix_stays_for_every_later_index() {
    let mut seen_suffix = false;
    for idx in 0..=95u8 {
        let label = label_for(idx, "11:00 pm");
        let has_suffix = label.ends_with(" =>");
        if seen_suffix {
            assert!(has_suffix, "suffix disappeared at index {}", idx);
        }
        if has_suffix {
            seen_suffix = true;
        }
    }
    assert!(seen_suffix);
}

#[test]
fn marked_start_keeps_previous_day_prefix_while_total_negative() {
    // A start label carrying the previous-day marker: one quarter-hour step
    // leaves the running total negative, so the label keeps a marker.
    assert_eq!(label_for(1, "* 11:00 pm"), "<= 11:15 pm");
}

#[test]
fn marked_start_drops_prefix_once_total_catches_up() {
    // 95 steps from a marked 11:00 pm start: the elapsed-hour total has
    // reached the 24-hour reference, so no marker remains.
    assert_eq!(label_for(95, "* 11:00 pm"), "10:45 pm");
}

#[test]
fn noon_formats_as_twelve_pm() {
    assert_eq!(label_for(48, "12:00 am"), "12:00 pm");
}
