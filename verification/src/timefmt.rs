//! Twelve-hour wall-clock labels.
//!
//! A time label is the eight characters `hh:mm am` or `hh:mm pm`, with a
//! zero-padded hour from 01 to 12.  A window start label may in addition
//! carry the two-character `"* "` prefix that marks a time belonging to the
//! previous calendar day.  The spec functions here define well-formedness of
//! both shapes and the wall-clock value a label denotes; the exec functions
//! format and parse labels against those definitions.

use vstd::prelude::*;

verus! {

/// The character for a single decimal digit.
pub open spec fn digit_char(d: int) -> char {
    if d == 0 {
        '0'
    } else if d == 1 {
        '1'
    } else if d == 2 {
        '2'
    } else if d == 3 {
        '3'
    } else if d == 4 {
        '4'
    } else if d == 5 {
        '5'
    } else if d == 6 {
        '6'
    } else if d == 7 {
        '7'
    } else if d == 8 {
        '8'
    } else {
        '9'
    }
}

/// The value of a decimal digit character, -1 for any other character.
pub open spec fn digit_val(c: char) -> int {
    if c == '0' {
        0
    } else if c == '1' {
        1
    } else if c == '2' {
        2
    } else if c == '3' {
        3
    } else if c == '4' {
        4
    } else if c == '5' {
        5
    } else if c == '6' {
        6
    } else if c == '7' {
        7
    } else if c == '8' {
        8
    } else if c == '9' {
        9
    } else {
        -1
    }
}

/// The character is a decimal digit.
pub open spec fn ascii_digit(c: char) -> bool {
    digit_val(c) >= 0
}

/// A well-formed bare time label: `hh:mm am` or `hh:mm pm` with hour 01-12
/// and minute 00-59.
pub open spec fn wf_time_label(s: Seq<char>) -> bool {
    &&& s.len() == 8
    &&& ascii_digit(s[0]) && ascii_digit(s[1]) && ascii_digit(s[3]) && ascii_digit(s[4])
    &&& s[2] == ':'
    &&& s[5] == ' '
    &&& (s[6] == 'a' || s[6] == 'p')
    &&& s[7] == 'm'
    &&& 1 <= 10 * digit_val(s[0]) + digit_val(s[1]) <= 12
    &&& 10 * digit_val(s[3]) + digit_val(s[4]) <= 59
}

/// Hour of day (0-23) denoted by a well-formed time label.
pub open spec fn label_hour24(s: Seq<char>) -> int {
    let h12 = 10 * digit_val(s[0]) + digit_val(s[1]);
    if s[6] == 'p' {
        h12 % 12 + 12
    } else {
        h12 % 12
    }
}

/// Minute (0-59) denoted by a well-formed time label.
pub open spec fn label_minute(s: Seq<char>) -> int {
    10 * digit_val(s[3]) + digit_val(s[4])
}

/// Minutes since midnight denoted by a well-formed time label.
pub open spec fn label_minutes_of_day(s: Seq<char>) -> int {
    60 * label_hour24(s) + label_minute(s)
}

/// The label that denotes the given hour (0-23) and minute (0-59).
pub open spec fn time_label(h24: int, mi: int) -> Seq<char> {
    let h12 = if h24 % 12 == 0 {
        12int
    } else {
        h24 % 12
    };
    let ap = if h24 < 12 {
        'a'
    } else {
        'p'
    };
    seq![
        digit_char(h12 / 10),
        digit_char(h12 % 10),
        ':',
        digit_char(mi / 10),
        digit_char(mi % 10),
        ' ',
        ap,
        'm',
    ]
}

/// Prefix that marks a slider label still on the previous day.
pub open spec fn prev_day_marker() -> Seq<char> {
    seq!['<', '=', ' ']
}

/// Suffix that marks a slider label rolled into the next day.
pub open spec fn next_day_marker() -> Seq<char> {
    seq![' ', '=', '>']
}

/// Prefix that marks a window label on an adjacent calendar day.
pub open spec fn window_marker() -> Seq<char> {
    seq!['*', ' ']
}

/// Formatting a valid hour and minute always yields a well-formed label that
/// reads back as exactly that wall-clock time.
pub proof fn lemma_time_label_inverts(h24: int, mi: int)
    requires
        0 <= h24 < 24,
        0 <= mi < 60,
    ensures
        wf_time_label(time_label(h24, mi)),
        label_hour24(time_label(h24, mi)) == h24,
        label_minute(time_label(h24, mi)) == mi,
        label_minutes_of_day(time_label(h24, mi)) == 60 * h24 + mi,
{
}

/// A start label: a bare time label, or one with the `"* "` previous-day
/// prefix.
pub open spec fn wf_start_label(s: Seq<char>) -> bool {
    if s.len() == 10 {
        s[0] == '*' && s[1] == ' ' && wf_time_label(s.skip(2))
    } else {
        wf_time_label(s)
    }
}

/// Whether a start label carries the previous-day prefix.
pub open spec fn start_label_marked(s: Seq<char>) -> bool {
    s.len() == 10
}

/// The bare time label inside a start label.
pub open spec fn start_label_core(s: Seq<char>) -> Seq<char> {
    if s.len() == 10 {
        s.skip(2)
    } else {
        s
    }
}

/// Relies on std's `String::push`: appends exactly one character.
#[verifier::external_body]
pub(crate) fn push_char(s: &mut String, c: char)
    ensures
        final (s)@ == old(s)@.push(c),
{
    s.push(c);
}

/// The character for a digit value.
fn digit_to_char(d: u32) -> (c: char)
    requires
        d < 10,
    ensures
        c == digit_char(d as int),
{
    match d {
        0 => '0',
        1 => '1',
        2 => '2',
        3 => '3',
        4 => '4',
        5 => '5',
        6 => '6',
        7 => '7',
        8 => '8',
        _ => '9',
    }
}

/// The value of a digit character.
fn char_digit(c: char) -> (r: u32)
    requires
        ascii_digit(c),
    ensures
        r == digit_val(c),
{
    match c {
        '0' => 0,
        '1' => 1,
        '2' => 2,
        '3' => 3,
        '4' => 4,
        '5' => 5,
        '6' => 6,
        '7' => 7,
        '8' => 8,
        _ => 9,
    }
}

/// Format an hour and minute as a 12-hour label.
pub fn format_time_label(h24: u32, mi: u32) -> (r: String)
    requires
        h24 < 24,
        mi < 60,
    ensures
        r@ == time_label(h24 as int, mi as int),
        wf_time_label(r@),
        label_minutes_of_day(r@) == 60 * h24 + mi,
{
    let h12: u32 = if h24 % 12 == 0 {
        12
    } else {
        h24 % 12
    };
    let ap: char = if h24 < 12 {
        'a'
    } else {
        'p'
    };
    let mut s = String::new();
    push_char(&mut s, digit_to_char(h12 / 10));
    push_char(&mut s, digit_to_char(h12 % 10));
    push_char(&mut s, ':');
    push_char(&mut s, digit_to_char(mi / 10));
    push_char(&mut s, digit_to_char(mi % 10));
    push_char(&mut s, ' ');
    push_char(&mut s, ap);
    push_char(&mut s, 'm');
    proof {
        lemma_time_label_inverts(h24 as int, mi as int);
        assert(s@ =~= time_label(h24 as int, mi as int));
    }
    s
}

/// Read the hour and minute denoted by a bare time label.
pub fn parse_time_label(s: &str) -> (r: (u32, u32))
    requires
        wf_time_label(s@),
    ensures
        r.0 == label_hour24(s@),
        r.1 == label_minute(s@),
        r.0 < 24,
        r.1 < 60,
{
    let d0 = char_digit(s.get_char(0));
    let d1 = char_digit(s.get_char(1));
    let d3 = char_digit(s.get_char(3));
    let d4 = char_digit(s.get_char(4));
    let h12 = 10 * d0 + d1;
    let mi = 10 * d3 + d4;
    let pm = s.get_char(6) == 'p';
    let h24 = if pm {
        h12 % 12 + 12
    } else {
        h12 % 12
    };
    (h24, mi)
}

/// Read a start label: whether it carries the previous-day prefix, and the
/// hour and minute of its bare time label.
pub fn parse_start_label(s: &str) -> (r: (bool, u32, u32))
    requires
        wf_start_label(s@),
    ensures
        r.0 == start_label_marked(s@),
        r.1 == label_hour24(start_label_core(s@)),
        r.2 == label_minute(start_label_core(s@)),
        r.1 < 24,
        r.2 < 60,
{
    let n = s.unicode_len();
    if n == 10 {
        let core = s.substring_char(2, 10);
        proof {
            assert(core@ =~= s@.skip(2));
        }
        let (h, m) = parse_time_label(core);
        (true, h, m)
    } else {
        let (h, m) = parse_time_label(s);
        (false, h, m)
    }
}

} // verus!
