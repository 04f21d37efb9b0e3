//! Day-fraction offset scenarios.

use timezoners::progress::day_percent_complete;
use timezoners::progress::offset_for_midday;
use timezoners::progress::offset_for_time;

#[test]
fn reference_ahead_of_start_counts_forward() {
    // Start 09:00, reference 17:00: 480 minutes ahead.
    assert_eq!(offset_for_time(9 * 3600, 17, 0, 0), 480);
}

#[test]
fn reference_behind_start_wraps_a_full_day() {
    // Start 09:00, reference 08:00: wraps to 1380 minutes.
    assert_eq!(offset_for_time(9 * 3600, 8, 0, 0), 1380);
}

#[test]
fn reference_equal_to_start_is_zero() {
    assert_eq!(offset_for_time(8 * 3600, 8, 0, 0), 0);
}

#[test]
fn sub_minute_lag_rounds_to_zero_not_a_wrap() {
    // The start is 30 seconds past the reference: the truncated minute
    // count is zero, so no day wrap is applied.
    assert_eq!(offset_for_time(8 * 3600 + 30, 8, 0, 0), 0);
}

#[test]
fn offsets_are_periodic_in_whole_days() {
    for tod in [0i64, 3600, 9 * 3600, 86399] {
        assert_eq!(
            offset_for_time(tod, 8, 0, 0),
            offset_for_time(tod + 86400, 8, 0, 0)
        );
        assert_eq!(
            offset_for_time(tod, 17, 0, 0),
            offset_for_time(tod - 86400, 17, 0, 0)
        );
        assert_eq!(day_percent_complete(tod), day_percent_complete(tod + 86400));
    }
}

#[test]
fn midday_offset_matches_generic_reference() {
    assert_eq!(offset_for_midday(9 * 3600), offset_for_time(9 * 3600, 12, 0, 0));
    assert_eq!(offset_for_midday(0), 720);
}

#[test]
fn day_progress_at_midnight_and_day_end() {
    // At local midnight, 1439 whole minutes remain until 23:59:59.
    assert_eq!(day_percent_complete(0), 1);
    // At 23:59:59 the day is fully complete.
    assert_eq!(day_percent_complete(86399), 1440);
}

#[test]
fn negative_instants_reduce_to_their_time_of_day() {
    // One hour before the epoch is 23:00 wall-clock time.
    assert_eq!(day_percent_complete(-3600), day_percent_complete(23 * 3600));
}
