//! The ordered collection of timezone entries and its shared state.
//!
//! `App` owns every timezone entry and the state they share: the base zone,
//! the selected date, the slider position and the two display colours.
//! Entry 0 is the base entry: it always exists, cannot be removed, and its
//! zone is mirrored in `base_zone` as the single source of truth for window
//! computation.  Indices stay contiguous (`0..len`) across every mutation;
//! removing an entry renumbers all that follow.  Entries re-derive their
//! display values by reading the shared state through the query methods, so
//! a mutation needs no explicit broadcast.

use vstd::prelude::*;

use crate::date::DateYmd;
use crate::date::tod_of;
use crate::progress::day_fraction_minutes;
use crate::progress::day_progress_minutes;
use crate::progress::day_percent_complete;
use crate::progress::offset_for_time;
use crate::slider::label_for;
use crate::slider::label_for_spec;
use crate::timefmt::wf_start_label;
use crate::window::zone_set;
use crate::window::window_instants_ok;
use crate::window::spec_projection;
use crate::window::window_label;
use crate::window::base_range;
use crate::window::project;
use crate::window::format_window_label;
use crate::window::RangeError;
use crate::window::ProjectError;
use crate::zones::zone_valid;
use crate::zones::zone_local_exists;
use crate::zones::zone_offset;
use crate::zones::today_ymd;
use vstd::arithmetic::div_mod::lemma_small_mod;
use vstd::arithmetic::div_mod::lemma_mod_division_less_than_divisor;

verus! {

/// Colour channels as thousandths: `1000` stands for a full channel (1.0).
pub const COLOUR_SCALE: u16 = 1000;

/// An RGBA colour with channels in thousandths of full intensity.
#[derive(Clone, Copy, PartialEq, Eq, Structural, Debug)]
pub struct Rgba {
    pub red: u16,
    pub green: u16,
    pub blue: u16,
    pub alpha: u16,
}

impl Rgba {
    /// Every channel is at most full intensity.
    pub open spec fn wf(self) -> bool {
        &&& self.red <= COLOUR_SCALE
        &&& self.green <= COLOUR_SCALE
        &&& self.blue <= COLOUR_SCALE
        &&& self.alpha <= COLOUR_SCALE
    }

    /// Build a colour, clamping each channel to full intensity.
    pub fn new(red: u16, green: u16, blue: u16, alpha: u16) -> (r: Rgba)
        ensures
            r.wf(),
            red <= COLOUR_SCALE ==> r.red == red,
            green <= COLOUR_SCALE ==> r.green == green,
            blue <= COLOUR_SCALE ==> r.blue == blue,
            alpha <= COLOUR_SCALE ==> r.alpha == alpha,
    {
        Rgba {
            red: if red > COLOUR_SCALE {
                COLOUR_SCALE
            } else {
                red
            },
            green: if green > COLOUR_SCALE {
                COLOUR_SCALE
            } else {
                green
            },
            blue: if blue > COLOUR_SCALE {
                COLOUR_SCALE
            } else {
                blue
            },
            alpha: if alpha > COLOUR_SCALE {
                COLOUR_SCALE
            } else {
                alpha
            },
        }
    }
}

/// One tracked timezone: its stable position in the collection and its
/// assigned zone, `None` while unassigned.
pub struct TimezoneEntry {
    pub index: usize,
    pub zone: Option<String>,
}

/// An optional zone that is either unassigned or a non-empty string: the
/// normal form every stored zone is kept in (an empty string is treated as
/// unassigned).
pub open spec fn zone_norm(z: Option<Seq<char>>) -> bool {
    z matches Some(s) ==> s.len() > 0
}

/// The normal form of an optional zone: an empty string becomes `None`.
pub open spec fn normalized_zone(z: Option<Seq<char>>) -> Option<Seq<char>> {
    if zone_set(z) {
        z
    } else {
        None
    }
}

/// Replace an empty zone string by `None`.
pub fn normalize_zone(zone: Option<String>) -> (r: Option<String>)
    ensures
        r.deep_view() == normalized_zone(zone.deep_view()),
        zone_norm(r.deep_view()),
{
    match zone {
        None => None,
        Some(s) => {
            if s.as_str().unicode_len() == 0 {
                None
            } else {
                Some(s)
            }
        },
    }
}

/// The kinds of update a background worker may report to the interface.
#[derive(Debug)]
pub enum MsgUpdateType {
    StatusMessage,
}

/// The serializable projection of coordinator state: the ordered zone list
/// (first slot is the base zone; `None` or an empty string is an unset or
/// removed slot), window geometry, and the two display colours.
pub struct ConfigSnapshot {
    pub zones: Vec<Option<String>>,
    pub win_pos_x: i32,
    pub win_pos_y: i32,
    pub win_width: i32,
    pub win_height: i32,
    pub midday_colour: Rgba,
    pub workday_colour: Rgba,
}

impl Default for ConfigSnapshot {
    /// The defaults: no zones (a single unset base entry is created on
    /// restore), a 500 by 300 window at the origin, and the default
    /// colours.
    fn default() -> (r: Self)
        ensures
            r.zones@.len() == 0,
            r.win_pos_x == 0,
            r.win_pos_y == 0,
            r.win_width == 500,
            r.win_height == 300,
            r.midday_colour == default_midday_colour(),
            r.workday_colour == default_workday_colour(),
    {
        ConfigSnapshot {
            zones: Vec::new(),
            win_pos_x: 0,
            win_pos_y: 0,
            win_width: 500,
            win_height: 300,
            midday_colour: Rgba { red: 980, green: 860, blue: 120, alpha: 500 },
            workday_colour: Rgba { red: 200, green: 200, blue: 900, alpha: 900 },
        }
    }
}

/// The zones a snapshot's trailing slots restore: only the assigned,
/// non-empty ones.
pub open spec fn set_zones(zs: Seq<Option<Seq<char>>>) -> Seq<Option<Seq<char>>> {
    zs.filter(|z: Option<Seq<char>>| zone_set(z))
}

/// Filtering distributes over appending one element.
proof fn lemma_set_zones_push(zs: Seq<Option<Seq<char>>>, x: Option<Seq<char>>)
    ensures
        set_zones(zs.push(x)) == if zone_set(x) {
            set_zones(zs).push(x)
        } else {
            set_zones(zs)
        },
{
    reveal(Seq::filter);
    assert(zs.push(x).drop_last() =~= zs);
    assert(zs.push(x).last() == x);
}

/// The base zone slot of a snapshot: its first entry, `None` when the list
/// is empty.
pub open spec fn snapshot_base(zs: Seq<Option<Seq<char>>>) -> Option<Seq<char>> {
    if zs.len() > 0 {
        zs[0]
    } else {
        None
    }
}

/// The trailing slots of a snapshot.
pub open spec fn snapshot_rest(zs: Seq<Option<Seq<char>>>) -> Seq<Option<Seq<char>>> {
    if zs.len() > 0 {
        zs.skip(1)
    } else {
        Seq::empty()
    }
}

/// The coordinator: the ordered timezone entries and their shared state.
pub struct App {
    /// The tracked entries; entry 0 is the base entry.
    pub entries: Vec<TimezoneEntry>,
    /// The base zone, always equal to the zone of entry 0.
    pub base_zone: Option<String>,
    /// The calendar date whose window is displayed.
    pub for_date: DateYmd,
    /// Shared slider position, a quarter-hour step in `[0, 95]`.
    pub slider_index: u8,
    /// Colour of the daylight gradient's midday stops.
    pub midday_colour: Rgba,
    /// Colour of the working-hours highlight.
    pub workday_colour: Rgba,
}

impl App {
    /// Zone of the entry at position `i`, as a mathematical value.
    pub open spec fn zone_at(self, i: int) -> Option<Seq<char>> {
        self.entries@[i].zone.deep_view()
    }

    /// All entry zones, in collection order.
    pub open spec fn zones_dv(self) -> Seq<Option<Seq<char>>> {
        Seq::new(self.entries@.len(), |i: int| self.zone_at(i))
    }

    /// Coordinator invariant: the base entry exists, indices are the
    /// contiguous sequence `0..len`, the base zone mirrors entry 0's zone,
    /// every stored zone is in normal form, the slider is in range and the
    /// colours are well-formed.
    pub open spec fn wf(self) -> bool {
        &&& self.entries@.len() >= 1
        &&& forall|i: int|
            0 <= i < self.entries@.len() ==> (#[trigger] self.entries@[i]).index == i
        &&& self.base_zone.deep_view() == self.zone_at(0)
        &&& forall|i: int|
            0 <= i < self.entries@.len() ==> zone_norm(
                (#[trigger] self.entries@[i]).zone.deep_view(),
            )
        &&& self.slider_index <= 95
        &&& self.midday_colour.wf()
        &&& self.workday_colour.wf()
    }

    /// Start the coordinator with its defaults: a single unassigned base
    /// entry, today's date, the slider at the day's start, and the default
    /// colours.
    pub fn new() -> (r: App)
        ensures
            r.wf(),
            r.entries@.len() == 1,
            r.zone_at(0) is None,
            r.base_zone is None,
            r.for_date.valid(),
            r.slider_index == 0,
            r.midday_colour == default_midday_colour(),
            r.workday_colour == default_workday_colour(),
    {
        let (y, m, d) = today_ymd();
        let mut entries: Vec<TimezoneEntry> = Vec::new();
        entries.push(TimezoneEntry { index: 0, zone: None });
        App {
            entries,
            base_zone: None,
            for_date: DateYmd::new(y, m, d),
            slider_index: 0,
            midday_colour: Rgba { red: 980, green: 860, blue: 120, alpha: 500 },
            workday_colour: Rgba { red: 200, green: 200, blue: 900, alpha: 900 },
        }
    }

    /// Rebuild the whole coordinator from a configuration snapshot: the
    /// first zone slot becomes the base entry (unset when the list is
    /// empty), each later slot with an assigned, non-empty zone restores
    /// one entry, the colours are taken from the snapshot (clamped into
    /// range), and the date starts at today.
    pub fn from_snapshot(snap: &ConfigSnapshot) -> (r: App)
        ensures
            r.wf(),
            r.zones_dv() == seq![
                normalized_zone(snapshot_base(snap.zones.deep_view())),
            ] + set_zones(snapshot_rest(snap.zones.deep_view())),
            r.base_zone.deep_view() == normalized_zone(snapshot_base(snap.zones.deep_view())),
            r.for_date.valid(),
            r.slider_index == 0,
            snap.midday_colour.wf() ==> r.midday_colour == snap.midday_colour,
            snap.workday_colour.wf() ==> r.workday_colour == snap.workday_colour,
    {
        let ghost zs = snap.zones.deep_view();
        let mut app = App::new();
        let midday = Rgba::new(
            snap.midday_colour.red,
            snap.midday_colour.green,
            snap.midday_colour.blue,
            snap.midday_colour.alpha,
        );
        let workday = Rgba::new(
            snap.workday_colour.red,
            snap.workday_colour.green,
            snap.workday_colour.blue,
            snap.workday_colour.alpha,
        );
        app.set_colours(midday, workday);
        proof {
            reveal(Seq::filter);
        }
        let n = snap.zones.len();
        if n > 0 {
            let base = clone_zone(&snap.zones[0]);
            app.set_zone(0, base);
            proof {
                assert(app.zones_dv() =~= seq![normalized_zone(snapshot_base(zs))] + set_zones(
                    zs.subrange(1, 1),
                ));
            }
            let mut i: usize = 1;
            while i < n
                invariant
                    app.wf(),
                    1 <= i <= n,
                    n == zs.len(),
                    zs == snap.zones.deep_view(),
                    app.entries@.len() <= i,
                    app.zones_dv() == seq![normalized_zone(snapshot_base(zs))] + set_zones(
                        zs.subrange(1, i as int),
                    ),
                    app.base_zone.deep_view() == normalized_zone(snapshot_base(zs)),
                    app.for_date.valid(),
                    app.slider_index == 0,
                    app.midday_colour == midday,
                    app.workday_colour == workday,
                decreases n - i,
            {
                let z = normalize_zone(clone_zone(&snap.zones[i]));
                proof {
                    lemma_set_zones_push(zs.subrange(1, i as int), zs[i as int]);
                    assert(zs.subrange(1, i as int + 1) =~= zs.subrange(1, i as int).push(
                        zs[i as int],
                    ));
                    zs.subrange(1, i as int).lemma_filter_len(
                        |z: Option<Seq<char>>| zone_set(z),
                    );
                }
                let ghost dv0 = app.zones_dv();
                match z {
                    Some(s) => {
                        app.add_entry(Some(s));
                        proof {
                            let rhs = seq![normalized_zone(snapshot_base(zs))] + set_zones(
                                zs.subrange(1, i as int + 1),
                            );
                            assert(set_zones(zs.subrange(1, i as int + 1)) == set_zones(
                                zs.subrange(1, i as int),
                            ).push(zs[i as int]));
                            assert(forall|k: int|
                                0 <= k < dv0.len() ==> app.zones_dv()[k] == dv0[k]);
                            assert(forall|k: int| 0 <= k < dv0.len() ==> rhs[k] == dv0[k]);
                            assert(app.zones_dv()[dv0.len() as int] == zs[i as int]);
                            assert(rhs[dv0.len() as int] == zs[i as int]);
                            assert(app.zones_dv() =~= rhs);
                        }
                    },
                    None => {
                        proof {
                            assert(app.zones_dv() =~= seq![
                                normalized_zone(snapshot_base(zs)),
                            ] + set_zones(zs.subrange(1, i as int + 1)));
                        }
                    },
                }
                i += 1;
            }
            proof {
                assert(zs.subrange(1, n as int) =~= snapshot_rest(zs));
            }
        } else {
            proof {
                assert(app.zones_dv() =~= seq![normalized_zone(snapshot_base(zs))] + set_zones(
                    snapshot_rest(zs),
                ));
            }
        }
        app
    }

    /// Serialize the coordinator's state into a snapshot, pairing its zone
    /// list and colours with the given window geometry.
    pub fn to_snapshot(&self, x: i32, y: i32, w: i32, h: i32) -> (r: ConfigSnapshot)
        requires
            self.wf(),
        ensures
            r.zones.deep_view() == self.zones_dv(),
            r.win_pos_x == x,
            r.win_pos_y == y,
            r.win_width == w,
            r.win_height == h,
            r.midday_colour == self.midday_colour,
            r.workday_colour == self.workday_colour,
    {
        let mut zones: Vec<Option<String>> = Vec::new();
        let n = self.entries.len();
        let mut i: usize = 0;
        while i < n
            invariant
                0 <= i <= n,
                n == self.entries@.len(),
                zones.deep_view() =~= self.zones_dv().take(i as int),
            decreases n - i,
        {
            let c = clone_zone(&self.entries[i].zone);
            let ghost cdv = c.deep_view();
            let ghost dv0 = zones.deep_view();
            proof {
                assert(cdv == self.zones_dv()[i as int]);
                assert(dv0.len() == i);
            }
            zones.push(c);
            proof {
                assert(zones@.len() == i + 1);
                assert(zones@[i as int].deep_view() == cdv);
                assert(zones.deep_view()[i as int] == cdv);
                assert(forall|k: int| 0 <= k < dv0.len() ==> zones.deep_view()[k] == dv0[k]);
                assert(zones.deep_view() =~= self.zones_dv().take(i as int + 1));
            }
            i += 1;
        }
        proof {
            assert(self.zones_dv().take(n as int) =~= self.zones_dv());
        }
        ConfigSnapshot {
            zones,
            win_pos_x: x,
            win_pos_y: y,
            win_width: w,
            win_height: h,
            midday_colour: self.midday_colour,
            workday_colour: self.workday_colour,
        }
    }

    /// Number of entries in the collection.
    pub fn len(&self) -> (r: usize)
        ensures
            r == self.entries@.len(),
    {
        self.entries.len()
    }

    /// Append a new entry with the given initial zone; its index is the
    /// previous collection length, which is returned.
    pub fn add_entry(&mut self, zone: Option<String>) -> (r: usize)
        requires
            old(self).wf(),
            old(self).entries@.len() < usize::MAX,
        ensures
            final (self).wf(),
            r == old(self).entries@.len(),
            final (self).entries@.len() == old(self).entries@.len() + 1,
            forall|i: int|
                0 <= i < old(self).entries@.len() ==> final (self).entries@[i] == old(
                    self,
                ).entries@[i],
            final (self).zone_at(r as int) == normalized_zone(zone.deep_view()),
            final (self).base_zone == old(self).base_zone,
            final (self).for_date == old(self).for_date,
            final (self).slider_index == old(self).slider_index,
            final (self).midday_colour == old(self).midday_colour,
            final (self).workday_colour == old(self).workday_colour,
    {
        let index = self.entries.len();
        let zone = normalize_zone(zone);
        self.entries.push(TimezoneEntry { index, zone });
        index
    }

    /// The base window is computable: the base zone is assigned and in the
    /// catalog, the date is valid, and neither boundary wall-clock time is
    /// skipped in the base zone.
    pub open spec fn base_range_ok(self) -> bool {
        &&& zone_set(self.base_zone.deep_view())
        &&& self.for_date.valid()
        &&& zone_valid(self.base_zone.deep_view()->Some_0)
        &&& zone_local_exists(
            self.base_zone.deep_view()->Some_0,
            self.for_date.midnight_secs(),
        )
        &&& zone_local_exists(
            self.base_zone.deep_view()->Some_0,
            self.for_date.midnight_secs() + 86399,
        )
    }

    /// The entry at `index` can display a window: the base window is
    /// computable and the entry's zone is assigned and in the catalog.
    pub open spec fn display_ok(self, index: int) -> bool {
        &&& self.base_range_ok()
        &&& zone_set(self.zone_at(index))
        &&& zone_valid(self.zone_at(index)->Some_0)
    }

    /// Compute the display window of the entry at `index`: the base day's
    /// bounds re-expressed in the entry's zone as 12-hour labels, each
    /// flagged (and prefixed with `"* "`) when it falls on a calendar day
    /// other than the base date.
    pub fn window_for(&self, index: usize) -> (r: Result<WindowDisplay, DisplayError>)
        requires
            self.wf(),
            index < self.entries@.len(),
        ensures
            r is Ok <==> self.display_ok(index as int),
            r matches Err(e) ==> self.window_for_err(index as int) == Err::<(), DisplayError>(e),
            r matches Ok(w) ==> wf_start_label(w.start_label@) && wf_start_label(w.end_label@)
                && exists|sts: int, ets: int|
                {
                    let p = spec_projection(
                        self.zone_at(index as int)->Some_0,
                        sts,
                        ets,
                        self.for_date.midnight_secs(),
                    );
                    &&& #[trigger] window_instants_ok(
                        self.base_zone.deep_view()->Some_0,
                        self.for_date,
                        sts,
                        ets,
                    )
                    &&& w.start_is_today == p.start_same_day
                    &&& w.end_is_today == p.end_same_day
                    &&& w.start_label@ == window_label(p.start_tod as int, p.start_same_day)
                    &&& w.end_label@ == window_label(p.end_tod as int, p.end_same_day)
                },
    {
        let base = match &self.base_zone {
            None => {
                return Err(DisplayError::Unavailable);
            },
            Some(b) => b,
        };
        let rng = match base_range(base.as_str(), self.for_date) {
            Ok(rng) => rng,
            Err(RangeError::InvalidDate) => {
                return Err(DisplayError::InvalidDate);
            },
            Err(RangeError::UnknownZone) => {
                return Err(DisplayError::UnknownBaseZone);
            },
            Err(RangeError::SkippedTime) => {
                return Err(DisplayError::SkippedTime);
            },
        };
        let p = match project(&rng, &self.entries[index].zone) {
            Ok(p) => p,
            Err(ProjectError::NoZone) => {
                return Err(DisplayError::Unavailable);
            },
            Err(ProjectError::UnknownZone) => {
                return Err(DisplayError::UnknownZone);
            },
        };
        let start_label = format_window_label(p.start_tod, p.start_same_day);
        let end_label = format_window_label(p.end_tod, p.end_same_day);
        proof {
            assert(window_instants_ok(
                self.base_zone.deep_view()->Some_0,
                self.for_date,
                rng.start_ts as int,
                rng.end_ts as int,
            ));
        }
        Ok(WindowDisplay {
            start_label,
            end_label,
            start_is_today: p.start_same_day,
            end_is_today: p.end_same_day,
        })
    }

    /// The wall-clock label the entry at `index` shows for the current
    /// slider position: its window's start label advanced by the slider's
    /// quarter-hour steps, with day-rollover markers.
    pub fn current_time_label(&self, index: usize) -> (r: Result<String, DisplayError>)
        requires
            self.wf(),
            index < self.entries@.len(),
        ensures
            r is Ok <==> self.display_ok(index as int),
            r matches Err(e) ==> self.window_for_err(index as int) == Err::<(), DisplayError>(e),
            r matches Ok(lbl) ==> exists|sts: int, ets: int|
                {
                    let p = spec_projection(
                        self.zone_at(index as int)->Some_0,
                        sts,
                        ets,
                        self.for_date.midnight_secs(),
                    );
                    &&& #[trigger] window_instants_ok(
                        self.base_zone.deep_view()->Some_0,
                        self.for_date,
                        sts,
                        ets,
                    )
                    &&& lbl@ == label_for_spec(
                        window_label(p.start_tod as int, p.start_same_day),
                        self.slider_index as int,
                    )
                },
    {
        let w = match self.window_for(index) {
            Ok(w) => w,
            Err(e) => {
                return Err(e);
            },
        };
        let lbl = label_for(self.slider_index, w.start_label.as_str());
        proof {
            let (sts, ets) = choose|sts: int, ets: int|
                {
                    let p = spec_projection(
                        self.zone_at(index as int)->Some_0,
                        sts,
                        ets,
                        self.for_date.midnight_secs(),
                    );
                    &&& #[trigger] window_instants_ok(
                        self.base_zone.deep_view()->Some_0,
                        self.for_date,
                        sts,
                        ets,
                    )
                    &&& w.start_is_today == p.start_same_day
                    &&& w.end_is_today == p.end_same_day
                    &&& w.start_label@ == window_label(p.start_tod as int, p.start_same_day)
                    &&& w.end_label@ == window_label(p.end_tod as int, p.end_same_day)
                };
            assert(window_instants_ok(
                self.base_zone.deep_view()->Some_0,
                self.for_date,
                sts,
                ets,
            ));
        }
        Ok(lbl)
    }

    /// The error `window_for` reports at `index`, as a spec-level value.
    pub open spec fn window_for_err(self, index: int) -> Result<(), DisplayError> {
        if !zone_set(self.base_zone.deep_view()) {
            Err(DisplayError::Unavailable)
        } else if !self.for_date.valid() {
            Err(DisplayError::InvalidDate)
        } else if !zone_valid(self.base_zone.deep_view()->Some_0) {
            Err(DisplayError::UnknownBaseZone)
        } else if !(zone_local_exists(
            self.base_zone.deep_view()->Some_0,
            self.for_date.midnight_secs(),
        ) && zone_local_exists(
            self.base_zone.deep_view()->Some_0,
            self.for_date.midnight_secs() + 86399,
        )) {
            Err(DisplayError::SkippedTime)
        } else if !zone_set(self.zone_at(index)) {
            Err(DisplayError::Unavailable)
        } else if !zone_valid(self.zone_at(index)->Some_0) {
            Err(DisplayError::UnknownZone)
        } else {
            Ok(())
        }
    }

    /// The three day-fraction offsets the entry at `index` hands to the
    /// daylight renderer, each in minutes of a 1440-minute day: how far
    /// through its day the window start's wall-clock time falls, and the
    /// offsets of the working-day bounds 08:00:00 and 17:00:00 from that
    /// wall-clock time.  A working-hours interval whose end offset is below
    /// its start offset crosses midnight and is drawn as two segments.
    pub fn day_progress_offsets(&self, index: usize) -> (r: Result<(u32, u32, u32), DisplayError>)
        requires
            self.wf(),
            index < self.entries@.len(),
        ensures
            r is Ok <==> self.display_ok(index as int),
            r matches Err(e) ==> self.window_for_err(index as int) == Err::<(), DisplayError>(e),
            r matches Ok(t) ==> exists|sts: int, ets: int|
                {
                    let ls = sts + zone_offset(self.zone_at(index as int)->Some_0, sts);
                    &&& #[trigger] window_instants_ok(
                        self.base_zone.deep_view()->Some_0,
                        self.for_date,
                        sts,
                        ets,
                    )
                    &&& t.0 == day_progress_minutes(ls)
                    &&& t.1 == day_fraction_minutes(ls, 8, 0, 0)
                    &&& t.2 == day_fraction_minutes(ls, 17, 0, 0)
                    &&& t.0 <= 1440
                    &&& t.1 < 1440
                    &&& t.2 < 1440
                },
    {
        let base = match &self.base_zone {
            None => {
                return Err(DisplayError::Unavailable);
            },
            Some(b) => b,
        };
        let rng = match base_range(base.as_str(), self.for_date) {
            Ok(rng) => rng,
            Err(RangeError::InvalidDate) => {
                return Err(DisplayError::InvalidDate);
            },
            Err(RangeError::UnknownZone) => {
                return Err(DisplayError::UnknownBaseZone);
            },
            Err(RangeError::SkippedTime) => {
                return Err(DisplayError::SkippedTime);
            },
        };
        let p = match project(&rng, &self.entries[index].zone) {
            Ok(p) => p,
            Err(ProjectError::NoZone) => {
                return Err(DisplayError::Unavailable);
            },
            Err(ProjectError::UnknownZone) => {
                return Err(DisplayError::UnknownZone);
            },
        };
        let prog = day_percent_complete(p.start_tod as i64);
        let work_start = offset_for_time(p.start_tod as i64, 8, 0, 0);
        let work_end = offset_for_time(p.start_tod as i64, 17, 0, 0);
        proof {
            let tz = self.zone_at(index as int)->Some_0;
            let ls = rng.start_ts + zone_offset(tz, rng.start_ts as int);
            lemma_mod_division_less_than_divisor(ls, 86400);
            lemma_small_mod(p.start_tod as nat, 86400);
            assert(tod_of(p.start_tod as int) == tod_of(ls));
            assert(window_instants_ok(
                self.base_zone.deep_view()->Some_0,
                self.for_date,
                rng.start_ts as int,
                rng.end_ts as int,
            ));
        }
        Ok((prog, work_start, work_end))
    }

    /// Assign a zone to the entry at `index` (an empty string counts as
    /// unassigning).  For the base entry this also updates the shared base
    /// zone, which every other entry's window derives from.
    pub fn set_zone(&mut self, index: usize, zone: Option<String>)
        requires
            old(self).wf(),
            index < old(self).entries@.len(),
        ensures
            final (self).wf(),
            final (self).entries@.len() == old(self).entries@.len(),
            forall|i: int|
                0 <= i < old(self).entries@.len() && i != index ==> final (self).entries@[i] == old(
                    self,
                ).entries@[i],
            final (self).zone_at(index as int) == normalized_zone(zone.deep_view()),
            final (self).entries@[index as int].index == index,
            final (self).base_zone.deep_view() == if index == 0 {
                normalized_zone(zone.deep_view())
            } else {
                old(self).base_zone.deep_view()
            },
            final (self).for_date == old(self).for_date,
            final (self).slider_index == old(self).slider_index,
            final (self).midday_colour == old(self).midday_colour,
            final (self).workday_colour == old(self).workday_colour,
    {
        let zone = normalize_zone(zone);
        if index == 0 {
            self.base_zone = clone_zone(&zone);
        }
        self.entries[index].zone = zone;
    }

    /// Remove the entry at `index` (never the base entry at 0) and renumber
    /// every following entry one position down, keeping the indices the
    /// contiguous sequence `0..len`.
    pub fn remove_entry(&mut self, index: usize)
        requires
            old(self).wf(),
            0 < index < old(self).entries@.len(),
        ensures
            final (self).wf(),
            final (self).entries@.len() == old(self).entries@.len() - 1,
            forall|i: int| 0 <= i < index ==> final (self).entries@[i] == old(self).entries@[i],
            forall|i: int|
                index <= i < final (self).entries@.len() ==> final (self).zone_at(i) == old(
                    self,
                ).zone_at(i + 1) && (#[trigger] final (self).entries@[i]).index == i,
            final (self).base_zone == old(self).base_zone,
            final (self).for_date == old(self).for_date,
            final (self).slider_index == old(self).slider_index,
            final (self).midday_colour == old(self).midday_colour,
            final (self).workday_colour == old(self).workday_colour,
    {
        self.entries.remove(index);
        let ghost removed = self.entries@;
        let n = self.entries.len();
        let mut j = index;
        while j < n
            invariant
                index <= j <= n,
                n == self.entries@.len(),
                removed.len() == n,
                forall|i: int| 0 <= i < index ==> self.entries@[i] == removed[i],
                forall|i: int|
                    index <= i < n ==> (#[trigger] self.entries@[i]).zone == removed[i].zone,
                forall|i: int| index <= i < j ==> (#[trigger] self.entries@[i]).index == i,
                self.base_zone == old(self).base_zone,
                self.for_date == old(self).for_date,
                self.slider_index == old(self).slider_index,
                self.midday_colour == old(self).midday_colour,
                self.workday_colour == old(self).workday_colour,
            decreases n - j,
        {
            self.entries[j].index = j;
            j += 1;
        }
    }

    /// Handle one event: dispatch it to the corresponding mutation.  Each
    /// event's full effect settles before this returns, so the invariant
    /// holds between any two events.
    pub fn update(&mut self, msg: Msg)
        requires
            old(self).wf(),
            old(self).entries@.len() < usize::MAX,
            msg matches Msg::TimezoneSelectChanged(i, _) ==> i < old(self).entries@.len(),
            msg matches Msg::TimezoneRemove(i) ==> 0 < i && i < old(self).entries@.len(),
            msg matches Msg::ColourSelectChanged(m, w) ==> m.wf() && w.wf(),
        ensures
            final (self).wf(),
            msg matches Msg::AddTzSelector(z) ==> {
                &&& final (self).entries@.len() == old(self).entries@.len() + 1
                &&& forall|i: int|
                    0 <= i < old(self).entries@.len() ==> final (self).entries@[i] == old(
                        self,
                    ).entries@[i]
                &&& final (self).zone_at(old(self).entries@.len() as int) == normalized_zone(
                    z.deep_view(),
                )
                &&& final (self).base_zone == old(self).base_zone
                &&& final (self).for_date == old(self).for_date
                &&& final (self).slider_index == old(self).slider_index
            },
            msg matches Msg::TimezoneSelectChanged(idx, z) ==> {
                &&& final (self).entries@.len() == old(self).entries@.len()
                &&& forall|i: int|
                    0 <= i < old(self).entries@.len() && i != idx ==> final (self).entries@[i]
                        == old(self).entries@[i]
                &&& final (self).zone_at(idx as int) == normalized_zone(z.deep_view())
                &&& final (self).base_zone.deep_view() == if idx == 0 {
                    normalized_zone(z.deep_view())
                } else {
                    old(self).base_zone.deep_view()
                }
                &&& final (self).for_date == old(self).for_date
                &&& final (self).slider_index == old(self).slider_index
            },
            msg matches Msg::TimezoneRemove(idx) ==> {
                &&& final (self).entries@.len() == old(self).entries@.len() - 1
                &&& forall|i: int| 0 <= i < idx ==> final (self).entries@[i] == old(self).entries@[i]
                &&& forall|i: int|
                    idx <= i < final (self).entries@.len() ==> final (self).zone_at(i) == old(
                        self,
                    ).zone_at(i + 1) && (#[trigger] final (self).entries@[i]).index == i
                &&& final (self).base_zone == old(self).base_zone
                &&& final (self).for_date == old(self).for_date
                &&& final (self).slider_index == old(self).slider_index
            },
            msg matches Msg::TimeSelectChanged(v) ==> {
                &&& final (self).slider_index == if v > 95 {
                    95u8
                } else {
                    v
                }
                &&& final (self).entries == old(self).entries
                &&& final (self).base_zone == old(self).base_zone
                &&& final (self).for_date == old(self).for_date
            },
            msg matches Msg::DateSelectChanged(d) ==> {
                &&& final (self).for_date == d
                &&& final (self).entries == old(self).entries
                &&& final (self).base_zone == old(self).base_zone
                &&& final (self).slider_index == old(self).slider_index
            },
            msg matches Msg::ColourSelectChanged(m, w) ==> {
                &&& final (self).midday_colour == m
                &&& final (self).workday_colour == w
                &&& final (self).entries == old(self).entries
                &&& final (self).base_zone == old(self).base_zone
                &&& final (self).for_date == old(self).for_date
                &&& final (self).slider_index == old(self).slider_index
            },
    {
        match msg {
            Msg::AddTzSelector(z) => {
                self.add_entry(z);
            },
            Msg::TimezoneSelectChanged(idx, z) => {
                self.set_zone(idx, z);
            },
            Msg::TimezoneRemove(idx) => {
                self.remove_entry(idx);
            },
            Msg::TimeSelectChanged(v) => {
                self.set_slider(v);
            },
            Msg::DateSelectChanged(d) => {
                self.set_date(d.year, d.month, d.day);
            },
            Msg::ColourSelectChanged(m, w) => {
                self.set_colours(m, w);
            },
        }
    }

    /// Store the shared slider position, clamped into `[0, 95]`.  Every
    /// entry reads the stored value, so all linked displays move together.
    pub fn set_slider(&mut self, value: u8)
        requires
            old(self).wf(),
        ensures
            final (self).wf(),
            final (self).slider_index == if value > 95 {
                95u8
            } else {
                value
            },
            final (self).entries == old(self).entries,
            final (self).base_zone == old(self).base_zone,
            final (self).for_date == old(self).for_date,
            final (self).midday_colour == old(self).midday_colour,
            final (self).workday_colour == old(self).workday_colour,
    {
        self.slider_index = if value > 95 {
            95
        } else {
            value
        };
    }

    /// Store the calendar date whose window every entry displays.
    pub fn set_date(&mut self, year: i32, month: u8, day: u8)
        requires
            old(self).wf(),
        ensures
            final (self).wf(),
            final (self).for_date == (DateYmd { year, month, day }),
            final (self).entries == old(self).entries,
            final (self).base_zone == old(self).base_zone,
            final (self).slider_index == old(self).slider_index,
            final (self).midday_colour == old(self).midday_colour,
            final (self).workday_colour == old(self).workday_colour,
    {
        self.for_date = DateYmd { year, month, day };
    }

    /// Store both display colours; every entry reads them on its next
    /// redraw.
    pub fn set_colours(&mut self, midday: Rgba, workday: Rgba)
        requires
            old(self).wf(),
            midday.wf(),
            workday.wf(),
        ensures
            final (self).wf(),
            final (self).midday_colour == midday,
            final (self).workday_colour == workday,
            final (self).entries == old(self).entries,
            final (self).base_zone == old(self).base_zone,
            final (self).for_date == old(self).for_date,
            final (self).slider_index == old(self).slider_index,
    {
        self.midday_colour = midday;
        self.workday_colour = workday;
    }
}

/// The display values of one entry's projected window: formatted start and
/// end labels (with the `"* "` prefix on a bound that falls on an adjacent
/// calendar day) and the same-day flags.
#[derive(Debug)]
pub struct WindowDisplay {
    pub start_label: String,
    pub end_label: String,
    pub start_is_today: bool,
    pub end_is_today: bool,
}

/// Why an entry has nothing to display.
#[derive(Clone, Copy, PartialEq, Eq, Structural, Debug)]
pub enum DisplayError {
    /// The base zone or the entry's zone is unassigned: show blank labels.
    Unavailable,
    /// The selected date does not exist or is out of range.
    InvalidDate,
    /// The base zone identifier is not in the catalog.
    UnknownBaseZone,
    /// A daylight-saving jump skips the base day's boundary time in the
    /// base zone.
    SkippedTime,
    /// The entry's zone identifier is not in the catalog.
    UnknownZone,
}

/// A coordinator event: every mutation of shared state or of the entry
/// collection arrives as one of these, and is handled completely before the
/// next event is processed.
pub enum Msg {
    /// Append a new entry with the given initial zone.
    AddTzSelector(Option<String>),
    /// Assign a zone to the entry at an index (the base entry at 0 also
    /// updates the shared base zone).
    TimezoneSelectChanged(usize, Option<String>),
    /// Remove the (non-base) entry at an index and renumber the rest.
    TimezoneRemove(usize),
    /// Move the shared slider, clamped into `[0, 95]`.
    TimeSelectChanged(u8),
    /// Select the calendar date whose window is displayed.
    DateSelectChanged(DateYmd),
    /// Choose the midday and workday display colours.
    ColourSelectChanged(Rgba, Rgba),
}

/// Copy an optional zone string.
pub fn clone_zone(z: &Option<String>) -> (r: Option<String>)
    ensures
        r.deep_view() == z.deep_view(),
{
    match z {
        None => None,
        Some(s) => Some(s.clone()),
    }
}

/// Default colour of the midday gradient stops: a translucent gold.
pub open spec fn default_midday_colour() -> Rgba {
    Rgba { red: 980, green: 860, blue: 120, alpha: 500 }
}

/// Default colour of the working-hours highlight: a translucent blue.
pub open spec fn default_workday_colour() -> Rgba {
    Rgba { red: 200, green: 200, blue: 900, alpha: 900 }
}

} // verus!
