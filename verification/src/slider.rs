//! Slider-index to wall-clock label conversion.
//!
//! The shared slider has 96 positions of fifteen minutes each.  `label_for`
//! adds `index * 15` minutes to the time a start label denotes and formats
//! the result as a 12-hour label, marking whether the running total of
//! elapsed hours, counted from 24 hours before the nominal start, has crossed
//! into the next calendar day (`" =>"` suffix) or still lies in the previous
//! one (`"<= "` prefix).

use vstd::prelude::*;

use crate::timefmt::wf_start_label;
use crate::timefmt::wf_time_label;
use crate::timefmt::start_label_marked;
use crate::timefmt::start_label_core;
use crate::timefmt::label_hour24;
use crate::timefmt::label_minutes_of_day;
use crate::timefmt::time_label;
use crate::timefmt::prev_day_marker;
use crate::timefmt::next_day_marker;
use crate::timefmt::parse_start_label;
use crate::timefmt::format_time_label;
use crate::timefmt::push_char;
use crate::timefmt::lemma_time_label_inverts;
use vstd::arithmetic::div_mod::lemma_div_is_ordered;
use vstd::arithmetic::mul::lemma_mul_inequality;

verus! {

/// The slider has 96 quarter-hour positions, 0 to 95.
pub const MAX_SLIDER_INDEX: u8 = 95;

/// Minutes of wall-clock time a bare label displays after advancing the
/// start label's time by `idx` quarter-hour steps, modulo one day.
pub open spec fn advanced_minutes(start: Seq<char>, idx: int) -> int {
    (label_minutes_of_day(start_label_core(start)) + idx * 15) % 1440
}

/// The running total of elapsed hours since 24 hours before the nominal
/// start is non-negative at step `idx`: the displayed time has rolled past
/// the start day's end.
pub open spec fn rolls_forward(start: Seq<char>, idx: int) -> bool {
    label_hour24(start_label_core(start)) - 24 + (idx * 15) / 60 >= 0
}

/// The bare time label inside a slider label (stripping a `"<= "` prefix or
/// a `" =>"` suffix, if present).
pub open spec fn slider_label_core(s: Seq<char>) -> Seq<char> {
    if s.len() == 11 && s[0] == '<' {
        s.skip(3)
    } else if s.len() == 11 {
        s.take(8)
    } else {
        s
    }
}

/// The label `label_for` returns: the start label's time advanced by
/// `idx * 15` minutes as a 12-hour label, with the `"<= "` prefix when the
/// start was already marked as a previous-day time and the elapsed-hour
/// total is still negative, and with the `" =>"` suffix when the start was
/// unmarked and the total has become non-negative.
pub open spec fn label_for_spec(start: Seq<char>, idx: int) -> Seq<char> {
    let disp = advanced_minutes(start, idx);
    let plain = time_label(disp / 60, disp % 60);
    if start_label_marked(start) && !rolls_forward(start, idx) {
        prev_day_marker() + plain
    } else if !start_label_marked(start) && rolls_forward(start, idx) {
        plain + next_day_marker()
    } else {
        plain
    }
}

/// Display label for slider position `idx`, starting from `start`.
pub fn label_for(idx: u8, start: &str) -> (r: String)
    requires
        idx <= MAX_SLIDER_INDEX,
        wf_start_label(start@),
    ensures
        r@ == label_for_spec(start@, idx as int),
        wf_time_label(slider_label_core(r@)),
        label_minutes_of_day(slider_label_core(r@)) == advanced_minutes(start@, idx as int),
{
    let (marked, h24, mi) = parse_start_label(start);
    let total: u32 = 60 * h24 + mi + (idx as u32) * 15;
    let disp: u32 = total % 1440;
    let dh: u32 = disp / 60;
    let dm: u32 = disp % 60;
    let plain = format_time_label(dh, dm);
    // `rolled` is the elapsed-hour check shifted by +24 to stay unsigned:
    // h24 + idx*15/60 < 24 exactly when the original running total is
    // negative.
    let rolled: bool = h24 + (idx as u32) * 15 / 60 >= 24;
    proof {
        assert(disp == advanced_minutes(start@, idx as int));
        assert(rolled == rolls_forward(start@, idx as int));
        lemma_time_label_inverts(dh as int, dm as int);
    }
    if marked && !rolled {
        let mut s = String::new();
        push_char(&mut s, '<');
        push_char(&mut s, '=');
        push_char(&mut s, ' ');
        s.append(plain.as_str());
        proof {
            assert(s@ =~= prev_day_marker() + time_label(dh as int, dm as int));
            assert(slider_label_core(s@) =~= time_label(dh as int, dm as int));
        }
        s
    } else if !marked && rolled {
        let mut s = plain;
        push_char(&mut s, ' ');
        push_char(&mut s, '=');
        push_char(&mut s, '>');
        proof {
            assert(s@ =~= time_label(dh as int, dm as int) + next_day_marker());
            assert(slider_label_core(s@) =~= time_label(dh as int, dm as int));
        }
        s
    } else {
        plain
    }
}

/// Rollover is monotone across a slider cycle: once a step's running total
/// of elapsed hours has become non-negative, it stays non-negative at every
/// later step of the same cycle.
pub proof fn lemma_rollover_monotone(start: Seq<char>, i: int, j: int)
    requires
        0 <= i <= j <= 95,
        rolls_forward(start, i),
    ensures
        rolls_forward(start, j),
{
    lemma_mul_inequality(i, j, 15);
    lemma_div_is_ordered(i * 15, j * 15, 60);
}

/// The label carries the rolled-into-next-day suffix `" =>"`.
pub open spec fn has_rollover_suffix(s: Seq<char>) -> bool {
    s.len() == 11 && s[8] == ' ' && s[9] == '=' && s[10] == '>'
}

/// A slider label carries the rollover suffix exactly when its start label
/// was unmarked and the running elapsed-hour total has become non-negative.
pub proof fn lemma_rollover_suffix_iff(start: Seq<char>, idx: int)
    requires
        wf_start_label(start),
    ensures
        has_rollover_suffix(label_for_spec(start, idx)) <==> (!start_label_marked(start)
            && rolls_forward(start, idx)),
{
}

/// Once a step's label carries the rollover suffix, the label of every
/// later step in the same 96-step cycle carries it too: a label never rolls
/// back within one cycle.
pub proof fn lemma_suffix_monotone(start: Seq<char>, i: int, j: int)
    requires
        wf_start_label(start),
        0 <= i <= j <= 95,
        has_rollover_suffix(label_for_spec(start, i)),
    ensures
        has_rollover_suffix(label_for_spec(start, j)),
{
    lemma_rollover_suffix_iff(start, i);
    lemma_rollover_monotone(start, i, j);
    lemma_rollover_suffix_iff(start, j);
}

} // verus!
