//! Coordinator scenarios: the entry collection, shared state, snapshots and
//! per-entry display values.

use timezoners::coord::App;
use timezoners::coord::ConfigSnapshot;
use timezoners::coord::DisplayError;
use timezoners::coord::Msg;
use timezoners::coord::Rgba;
use timezoners::date::DateYmd;

fn app_with_base(base: &str, date: DateYmd) -> App {
    let mut app = App::new();
    app.set_zone(0, Some(String::from(base)));
    app.set_date(date.year, date.month, date.day);
    app
}

#[test]
fn new_app_has_single_unset_base_entry() {
    let app = App::new();
    assert_eq!(app.len(), 1);
    let snap = app.to_snapshot(0, 0, 500, 300);
    assert_eq!(snap.zones, vec![None]);
}

#[test]
fn add_entry_appends_with_next_index() {
    let mut app = App::new();
    let i1 = app.add_entry(Some(String::from("Asia/Tokyo")));
    let i2 = app.add_entry(None);
    assert_eq!(i1, 1);
    assert_eq!(i2, 2);
    assert_eq!(app.len(), 3);
}

#[test]
fn empty_zone_string_counts_as_unassigned() {
    let mut app = App::new();
    app.add_entry(Some(String::new()));
    let snap = app.to_snapshot(0, 0, 500, 300);
    assert_eq!(snap.zones, vec![None, None]);
    app.set_zone(1, Some(String::from("UTC")));
    app.set_zone(1, Some(String::new()));
    let snap = app.to_snapshot(0, 0, 500, 300);
    assert_eq!(snap.zones, vec![None, None]);
}

#[test]
fn setting_base_zone_updates_shared_base() {
    let mut app = app_with_base("UTC", DateYmd::new(2024, 6, 1));
    app.add_entry(Some(String::from("Asia/Tokyo")));
    // Entry 0's window is the base window projected onto itself.
    let w = app.window_for(0).unwrap();
    assert_eq!(w.start_label, "12:00 am");
    assert_eq!(w.end_label, "11:59 pm");
    assert!(w.start_is_today);
    assert!(w.end_is_today);
}

#[test]
fn three_entries_remove_middle_shifts_later_ones_down() {
    let mut app = App::new();
    app.set_zone(0, Some(String::from("UTC")));
    app.add_entry(Some(String::from("Asia/Tokyo")));
    app.add_entry(Some(String::from("America/New_York")));
    app.add_entry(Some(String::from("Europe/Berlin")));
    assert_eq!(app.len(), 4);
    app.remove_entry(2);
    assert_eq!(app.len(), 3);
    let snap = app.to_snapshot(0, 0, 500, 300);
    assert_eq!(
        snap.zones,
        vec![
            Some(String::from("UTC")),
            Some(String::from("Asia/Tokyo")),
            Some(String::from("Europe/Berlin")),
        ]
    );
}

#[test]
fn tokyo_window_labels_from_utc_base() {
    let mut app = app_with_base("UTC", DateYmd::new(2024, 6, 1));
    let i = app.add_entry(Some(String::from("Asia/Tokyo")));
    let w = app.window_for(i).unwrap();
    assert_eq!(w.start_label, "09:00 am");
    assert!(w.start_is_today);
    assert_eq!(w.end_label, "* 08:59 am");
    assert!(!w.end_is_today);
}

#[test]
fn new_york_window_starts_previous_day() {
    let mut app = app_with_base("UTC", DateYmd::new(2024, 6, 1));
    let i = app.add_entry(Some(String::from("America/New_York")));
    let w = app.window_for(i).unwrap();
    assert_eq!(w.start_label, "* 08:00 pm");
    assert!(!w.start_is_today);
    assert_eq!(w.end_label, "07:59 pm");
    assert!(w.end_is_today);
}

#[test]
fn current_time_label_advances_with_slider() {
    let mut app = app_with_base("UTC", DateYmd::new(2024, 6, 1));
    app.set_slider(40);
    assert_eq!(app.current_time_label(0).unwrap(), "10:00 am");
    let i = app.add_entry(Some(String::from("Asia/Tokyo")));
    assert_eq!(app.current_time_label(i).unwrap(), "07:00 pm");
}

#[test]
fn slider_value_is_clamped() {
    let mut app = app_with_base("UTC", DateYmd::new(2024, 6, 1));
    app.set_slider(200);
    // 95 steps past midnight is 11:45 pm, rolled into the next-day marker
    // region only at the very end of the cycle.
    assert_eq!(app.current_time_label(0).unwrap(), "11:45 pm");
}

#[test]
fn unassigned_entry_is_unavailable_not_an_error() {
    let mut app = app_with_base("UTC", DateYmd::new(2024, 6, 1));
    let i = app.add_entry(None);
    assert_eq!(app.window_for(i).unwrap_err(), DisplayError::Unavailable);
    let mut app2 = App::new();
    app2.set_date(2024, 6, 1);
    assert_eq!(app2.window_for(0).unwrap_err(), DisplayError::Unavailable);
}

#[test]
fn unknown_zones_are_fatal_errors() {
    let mut app = app_with_base("Not/AZone", DateYmd::new(2024, 6, 1));
    assert_eq!(app.window_for(0).unwrap_err(), DisplayError::UnknownBaseZone);
    let mut app = app_with_base("UTC", DateYmd::new(2024, 6, 1));
    let i = app.add_entry(Some(String::from("Not/AZone")));
    assert_eq!(app.window_for(i).unwrap_err(), DisplayError::UnknownZone);
}

#[test]
fn invalid_date_is_a_fatal_error() {
    let app = app_with_base("UTC", DateYmd::new(2024, 2, 30));
    assert_eq!(app.window_for(0).unwrap_err(), DisplayError::InvalidDate);
}

#[test]
fn derived_displays_report_the_same_errors() {
    let mut app = app_with_base("UTC", DateYmd::new(2024, 6, 1));
    let i = app.add_entry(Some(String::from("Not/AZone")));
    assert_eq!(app.current_time_label(i).unwrap_err(), DisplayError::UnknownZone);
    assert_eq!(app.day_progress_offsets(i).unwrap_err(), DisplayError::UnknownZone);
    let j = app.add_entry(None);
    assert_eq!(app.current_time_label(j).unwrap_err(), DisplayError::Unavailable);
    assert_eq!(app.day_progress_offsets(j).unwrap_err(), DisplayError::Unavailable);
}

#[test]
fn day_progress_offsets_for_tokyo() {
    let mut app = app_with_base("UTC", DateYmd::new(2024, 6, 1));
    let i = app.add_entry(Some(String::from("Asia/Tokyo")));
    let (progress, work_start, work_end) = app.day_progress_offsets(i).unwrap();
    // Window starts at 09:00 local: 541 minutes of the day are "complete"
    // (1440 - (86399 - 32400) / 60); 08:00 is 60 minutes behind the start
    // (wraps to 1380), 17:00 is 480 minutes ahead.
    assert_eq!(progress, 541);
    assert_eq!(work_start, 1380);
    assert_eq!(work_end, 480);
}

#[test]
fn day_progress_offsets_for_base_utc() {
    let app = app_with_base("UTC", DateYmd::new(2024, 6, 1));
    let (progress, work_start, work_end) = app.day_progress_offsets(0).unwrap();
    // Window starts at local midnight.
    assert_eq!(progress, 1440 - 86399 / 60);
    assert_eq!(work_start, 480);
    assert_eq!(work_end, 1020);
}

#[test]
fn snapshot_restores_base_and_assigned_zones() {
    let snap = ConfigSnapshot {
        zones: vec![
            Some(String::from("UTC")),
            Some(String::from("Asia/Tokyo")),
            None,
            Some(String::new()),
            Some(String::from("Europe/Berlin")),
        ],
        win_pos_x: 10,
        win_pos_y: 20,
        win_width: 640,
        win_height: 480,
        midday_colour: Rgba { red: 980, green: 860, blue: 120, alpha: 500 },
        workday_colour: Rgba { red: 200, green: 200, blue: 900, alpha: 900 },
    };
    let app = App::from_snapshot(&snap);
    assert_eq!(app.len(), 3);
    let out = app.to_snapshot(10, 20, 640, 480);
    assert_eq!(
        out.zones,
        vec![
            Some(String::from("UTC")),
            Some(String::from("Asia/Tokyo")),
            Some(String::from("Europe/Berlin")),
        ]
    );
    assert_eq!(out.win_width, 640);
    assert_eq!(out.midday_colour, snap.midday_colour);
}

#[test]
fn empty_snapshot_restores_single_unset_entry() {
    let app = App::from_snapshot(&ConfigSnapshot::default());
    assert_eq!(app.len(), 1);
    assert_eq!(app.window_for(0).unwrap_err(), DisplayError::Unavailable);
}

#[test]
fn default_snapshot_matches_original_defaults() {
    let snap = ConfigSnapshot::default();
    assert_eq!(snap.zones.len(), 0);
    assert_eq!((snap.win_pos_x, snap.win_pos_y), (0, 0));
    assert_eq!((snap.win_width, snap.win_height), (500, 300));
    assert_eq!(snap.midday_colour, Rgba { red: 980, green: 860, blue: 120, alpha: 500 });
    assert_eq!(snap.workday_colour, Rgba { red: 200, green: 200, blue: 900, alpha: 900 });
}

#[test]
fn events_dispatch_to_the_same_mutations() {
    let mut app = App::new();
    app.update(Msg::TimezoneSelectChanged(0, Some(String::from("UTC"))));
    app.update(Msg::DateSelectChanged(DateYmd::new(2024, 6, 1)));
    app.update(Msg::AddTzSelector(Some(String::from("Asia/Tokyo"))));
    app.update(Msg::TimeSelectChanged(40));
    app.update(
        Msg::ColourSelectChanged(
            Rgba::new(500, 500, 500, 500),
            Rgba::new(100, 100, 100, 100),
        ),
    );
    assert_eq!(app.len(), 2);
    assert_eq!(app.current_time_label(1).unwrap(), "07:00 pm");
    app.update(Msg::TimezoneRemove(1));
    assert_eq!(app.len(), 1);
}

#[test]
fn colours_are_clamped_into_range() {
    let c = Rgba::new(2000, 500, 0, 1001);
    assert_eq!(c, Rgba { red: 1000, green: 500, blue: 0, alpha: 1000 });
}
