use vstd::prelude::*;

use crate::config::{Config, Difficulty, TestMode};
use crate::text::{decimal, digit_char, push_decimal, push_str};

verus! {

/// A value in tenths written with one decimal: `123` is `12.3`.
pub open spec fn tenths_text(t: nat) -> Seq<char> {
    decimal(t / 10).push('.').push(digit_char(t % 10))
}

/// Appends a value in tenths with one decimal.
pub fn push_tenths(out: &mut Vec<char>, t: u64)
    ensures
        final(out)@ == old(out)@ + tenths_text(t as nat),
{
    push_decimal(out, t / 10);
    out.push('.');
    let d = t % 10;
    push_decimal(out, d);
    proof {
        assert(decimal(d as nat) == seq![digit_char(d as nat)]);
        assert(out@ == old(out)@ + tenths_text(t as nat));
    }
}

pub open spec fn app_title_spec(repeat: bool) -> Seq<char> {
    if repeat { "TuiType [Repeat Mode]"@ } else { "TuiType"@ }
}

/// The application's title, marked while repeat mode is on.
pub fn app_title(repeat: bool) -> (r: Vec<char>)
    ensures
        r@ == app_title_spec(repeat),
{
    let mut r = Vec::new();
    if repeat {
        push_str(&mut r, "TuiType [Repeat Mode]");
    } else {
        push_str(&mut r, "TuiType");
    }
    r
}

pub open spec fn mode_text_spec(m: TestMode) -> Seq<char> {
    match m {
        TestMode::Timed(secs) => "Mode: Timed "@ + decimal(secs as nat) + "s"@,
        TestMode::Words(n) => "Mode: Words "@ + decimal(n as nat),
        TestMode::Quote => "Mode: Quote"@,
        TestMode::Custom => "Mode: Custom"@,
    }
}

/// The test mode as shown in the typing view's header.
pub fn mode_text(m: TestMode) -> (r: Vec<char>)
    ensures
        r@ == mode_text_spec(m),
{
    let mut r = Vec::new();
    match m {
        TestMode::Timed(secs) => {
            push_str(&mut r, "Mode: Timed ");
            push_decimal(&mut r, secs);
            push_str(&mut r, "s");
        },
        TestMode::Words(n) => {
            push_str(&mut r, "Mode: Words ");
            push_decimal(&mut r, n);
        },
        TestMode::Quote => push_str(&mut r, "Mode: Quote"),
        TestMode::Custom => push_str(&mut r, "Mode: Custom"),
    }
    r
}

pub open spec fn difficulty_text_spec(d: Difficulty) -> Seq<char> {
    match d {
        Difficulty::Easy => "Difficulty: Easy"@,
        Difficulty::Medium => "Difficulty: Medium"@,
        Difficulty::Hard => "Difficulty: Hard"@,
        Difficulty::Custom => "Difficulty: Custom"@,
    }
}

pub fn difficulty_text(d: Difficulty) -> (r: Vec<char>)
    ensures
        r@ == difficulty_text_spec(d),
{
    let mut r = Vec::new();
    match d {
        Difficulty::Easy => push_str(&mut r, "Difficulty: Easy"),
        Difficulty::Medium => push_str(&mut r, "Difficulty: Medium"),
        Difficulty::Hard => push_str(&mut r, "Difficulty: Hard"),
        Difficulty::Custom => push_str(&mut r, "Difficulty: Custom"),
    }
    r
}

pub open spec fn repeat_text_spec(on: bool) -> Seq<char> {
    if on { "Repeat: ON"@ } else { "Repeat: OFF"@ }
}

pub fn repeat_text(on: bool) -> (r: Vec<char>)
    ensures
        r@ == repeat_text_spec(on),
{
    let mut r = Vec::new();
    if on {
        push_str(&mut r, "Repeat: ON");
    } else {
        push_str(&mut r, "Repeat: OFF");
    }
    r
}

pub open spec fn end_on_error_text_spec(on: bool) -> Seq<char> {
    if on { "End on Error: Yes"@ } else { "End on Error: No"@ }
}

pub fn end_on_error_text(on: bool) -> (r: Vec<char>)
    ensures
        r@ == end_on_error_text_spec(on),
{
    let mut r = Vec::new();
    if on {
        push_str(&mut r, "End on Error: Yes");
    } else {
        push_str(&mut r, "End on Error: No");
    }
    r
}

/// The countdown field: the seconds left in a timed test (the full time
/// before it starts), and nothing in other modes.
pub open spec fn time_text_spec(m: TestMode, remaining: Option<u64>) -> Seq<char> {
    match m {
        TestMode::Timed(secs) => match remaining {
            Some(r) => "Time: "@ + decimal(r as nat) + "s"@,
            None => "Time: "@ + decimal(secs as nat) + "s"@,
        },
        _ => Seq::empty(),
    }
}

pub fn time_text(m: TestMode, remaining: Option<u64>) -> (r: Vec<char>)
    ensures
        r@ == time_text_spec(m, remaining),
{
    let mut r = Vec::new();
    match m {
        TestMode::Timed(secs) => {
            let n = match remaining {
                Some(left) => left,
                None => secs,
            };
            push_str(&mut r, "Time: ");
            push_decimal(&mut r, n);
            push_str(&mut r, "s");
        },
        _ => {},
    }
    r
}

/// The live figures, each rounded to a tenth.
pub open spec fn stats_text_spec(wpm: nat, raw: nat, acc: nat) -> Seq<char> {
    "WPM: "@ + tenths_text(wpm) + " | Raw WPM: "@ + tenths_text(raw) + " | Acc: "@ + tenths_text(acc)
        + "%"@
}

/// The live figures line; the arguments are in tenths.
pub fn stats_text(wpm: u64, raw: u64, acc: u64) -> (r: Vec<char>)
    ensures
        r@ == stats_text_spec(wpm as nat, raw as nat, acc as nat),
{
    let mut r = Vec::new();
    push_str(&mut r, "WPM: ");
    push_tenths(&mut r, wpm);
    push_str(&mut r, " | Raw WPM: ");
    push_tenths(&mut r, raw);
    push_str(&mut r, " | Acc: ");
    push_tenths(&mut r, acc);
    push_str(&mut r, "%");
    r
}

/// Appends a copy of `a`.
pub fn append(out: &mut Vec<char>, a: &Vec<char>)
    ensures
        final(out)@ == old(out)@ + a@,
{
    let ghost start = out@;
    let mut i: usize = 0;
    while i < a.len()
        invariant
            i <= a@.len(),
            out@ == start + a@.subrange(0, i as int),
        decreases a@.len() - i,
    {
        out.push(a[i]);
        i = i + 1;
        assert(a@.subrange(0, i as int) == a@.subrange(0, i - 1).push(a@[i - 1]));
    }
    assert(a@.subrange(0, a@.len() as int) == a@);
}

/// Two fields of a header, separated by a bar.
pub open spec fn bar(a: Seq<char>, b: Seq<char>) -> Seq<char> {
    a + " | "@ + b
}

/// `a | b` as a new line.
pub fn join(a: &Vec<char>, b: &Vec<char>) -> (r: Vec<char>)
    ensures
        r@ == bar(a@, b@),
{
    let mut r = Vec::new();
    append(&mut r, a);
    push_str(&mut r, " | ");
    append(&mut r, b);
    proof {
        assert(r@ == Seq::<char>::empty() + a@ + " | "@ + b@);
        assert(Seq::<char>::empty() + a@ == a@);
    }
    r
}

/// `a | s` as a new line, for a fixed `s`.
pub fn join_str(a: &Vec<char>, s: &str) -> (r: Vec<char>)
    ensures
        r@ == bar(a@, s@),
{
    let b = crate::text::chars_of(s);
    join(a, &b)
}

/// The fields that the typing view's header is made of.
pub struct HeaderFields {
    pub title: Vec<char>,
    pub mode: Vec<char>,
    pub difficulty: Vec<char>,
    pub repeat: Vec<char>,
    pub end_on_error: Vec<char>,
    pub time: Vec<char>,
    pub stats: Vec<char>,
}

/// The header's fields as text.
pub struct FieldsView {
    pub title: Seq<char>,
    pub mode: Seq<char>,
    pub difficulty: Seq<char>,
    pub repeat: Seq<char>,
    pub end_on_error: Seq<char>,
    pub time: Seq<char>,
    pub stats: Seq<char>,
}

impl HeaderFields {
    pub open spec fn view(&self) -> FieldsView {
        FieldsView {
            title: self.title@,
            mode: self.mode@,
            difficulty: self.difficulty@,
            repeat: self.repeat@,
            end_on_error: self.end_on_error@,
            time: self.time@,
            stats: self.stats@,
        }
    }
}

/// The fields for a configuration, a countdown and live figures in tenths.
pub open spec fn fields_spec(c: Config, remaining: Option<u64>, wpm: nat, raw: nat, acc: nat) -> FieldsView {
    FieldsView {
        title: app_title_spec(c.repeat_test),
        mode: mode_text_spec(c.test_mode),
        difficulty: difficulty_text_spec(c.difficulty),
        repeat: repeat_text_spec(c.repeat_test),
        end_on_error: end_on_error_text_spec(c.end_on_first_error),
        time: time_text_spec(c.test_mode, remaining),
        stats: stats_text_spec(wpm, raw, acc),
    }
}

pub fn header_fields(c: &Config, remaining: Option<u64>, wpm: u64, raw: u64, acc: u64) -> (r: HeaderFields)
    ensures
        r.view() == fields_spec(*c, remaining, wpm as nat, raw as nat, acc as nat),
{
    HeaderFields {
        title: app_title(c.repeat_test),
        mode: mode_text(c.test_mode),
        difficulty: difficulty_text(c.difficulty),
        repeat: repeat_text(c.repeat_test),
        end_on_error: end_on_error_text(c.end_on_first_error),
        time: time_text(c.test_mode, remaining),
        stats: stats_text(wpm, raw, acc),
    }
}

/// The typing view's title when everything is on one line.
pub open spec fn single_line_spec(f: FieldsView) -> Seq<char> {
    let head = bar(bar(bar(bar(bar(f.title, f.mode), f.difficulty), f.repeat), f.end_on_error), f.stats);
    let with_time = if f.time.len() > 0 { bar(head, f.time) } else { head };
    bar(with_time, "Press ESC for menu"@)
}

/// Ninety percent of a width, rounded down: the room a title may take.
pub open spec fn title_room(width: int) -> int {
    9 * width / 10
}

/// The typing view's header: one line, or two lines that drop information
/// as the width shrinks.
#[derive(Debug)]
pub enum Header {
    Single(Vec<char>),
    Stacked(Vec<char>, Vec<char>),
}

/// The header's lines as text: `(one_line, first, second)`; `second` is empty
/// for a single line.
pub open spec fn header_spec(width: int, f: FieldsView, wpm: nat, raw: nat) -> (bool, Seq<char>, Seq<char>) {
    let single = single_line_spec(f);
    let room = title_room(width);
    let has_time = f.time.len() > 0;
    if single.len() <= room {
        (true, single, Seq::empty())
    } else if width < 40 {
        (false,
         if has_time { bar(f.title, f.time) } else { f.title },
         bar("WPM: "@ + tenths_text(wpm), "ESC:Menu"@))
    } else if width < 60 {
        (false,
         if has_time { bar(f.title, f.time) } else { bar(f.title, f.mode) },
         bar(bar("WPM: "@ + tenths_text(wpm), "Raw: "@ + tenths_text(raw)), "Press ESC for menu"@))
    } else {
        let config = if width <= 90 {
            bar(f.title, f.mode)
        } else {
            bar(bar(bar(bar(f.title, f.mode), f.difficulty), f.repeat), f.end_on_error)
        };
        let with_time = if has_time { bar(config, f.time) } else { config };
        if width <= 90 {
            (false, bar(with_time, f.stats),
             bar(bar(bar(f.difficulty, f.repeat), f.end_on_error), "Press ESC for menu"@))
        } else if with_time.len() + f.stats.len() + 3 <= room {
            (false, bar(with_time, f.stats), "Press ESC for menu"@)
        } else if config.len() + f.time.len() + 3 <= room {
            (false, with_time, bar(f.stats, "Press ESC for menu"@))
        } else {
            (false, config, bar(f.stats, "Press ESC for menu"@))
        }
    }
}

impl Header {
    pub open spec fn lines(&self) -> (bool, Seq<char>, Seq<char>) {
        match self {
            Header::Single(l) => (true, l@, Seq::empty()),
            Header::Stacked(a, b) => (false, a@, b@),
        }
    }
}

/// Chooses the typing view's header for a frame `width` columns wide; the
/// speeds are in tenths.
pub fn header(width: u16, f: &HeaderFields, wpm: u64, raw: u64) -> (r: Header)
    ensures
        r.lines() == header_spec(width as int, f.view(), wpm as nat, raw as nat),
{
    let room: usize = (9 * (width as usize)) / 10;
    let has_time = f.time.len() > 0;
    let mut head = join(&f.title, &f.mode);
    head = join(&head, &f.difficulty);
    head = join(&head, &f.repeat);
    head = join(&head, &f.end_on_error);
    head = join(&head, &f.stats);
    if has_time {
        head = join(&head, &f.time);
    }
    let single = join_str(&head, "Press ESC for menu");
    if single.len() <= room {
        return Header::Single(single);
    }
    if width < 40 {
        let first = if has_time { join(&f.title, &f.time) } else { copy_of(&f.title) };
        let mut w = crate::text::chars_of("WPM: ");
        push_tenths(&mut w, wpm);
        let second = join_str(&w, "ESC:Menu");
        Header::Stacked(first, second)
    } else if width < 60 {
        let first = if has_time { join(&f.title, &f.time) } else { join(&f.title, &f.mode) };
        let mut w = crate::text::chars_of("WPM: ");
        push_tenths(&mut w, wpm);
        let mut rw = crate::text::chars_of("Raw: ");
        push_tenths(&mut rw, raw);
        let second = join_str(&join(&w, &rw), "Press ESC for menu");
        Header::Stacked(first, second)
    } else {
        let config = if width <= 90 {
            join(&f.title, &f.mode)
        } else {
            let mut c = join(&f.title, &f.mode);
            c = join(&c, &f.difficulty);
            c = join(&c, &f.repeat);
            join(&c, &f.end_on_error)
        };
        let with_time = if has_time { join(&config, &f.time) } else { copy_of(&config) };
        if width <= 90 {
            let mut second = join(&f.difficulty, &f.repeat);
            second = join(&second, &f.end_on_error);
            let second = join_str(&second, "Press ESC for menu");
            Header::Stacked(join(&with_time, &f.stats), second)
        } else if with_time.len() as u128 + f.stats.len() as u128 + 3 <= room as u128 {
            Header::Stacked(join(&with_time, &f.stats), crate::text::chars_of("Press ESC for menu"))
        } else if config.len() as u128 + f.time.len() as u128 + 3 <= room as u128 {
            Header::Stacked(with_time, join_str(&f.stats, "Press ESC for menu"))
        } else {
            Header::Stacked(config, join_str(&f.stats, "Press ESC for menu"))
        }
    }
}

/// A copy of `a`.
pub fn copy_of(a: &Vec<char>) -> (r: Vec<char>)
    ensures
        r@ == a@,
{
    let mut r = Vec::new();
    append(&mut r, a);
    assert(r@ == Seq::<char>::empty() + a@);
    r
}

} // verus!
