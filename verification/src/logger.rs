//! Coloured, timestamped console log lines.
//!
//! The library decides what a log line says (timestamp, category tag,
//! optional subsystem, message) and which colour it is drawn in; writing it
//! to a terminal is left to the caller.

use colored::{Color, ColoredString, Colorize};
use std::time::{Duration, SystemTime, SystemTimeError};
use vstd::prelude::*;
use vstd::arithmetic::div_mod::{
    lemma_fundamental_div_mod, lemma_fundamental_div_mod_converse, lemma_mod_multiples_vanish,
};
use crate::text::{push_char, push_text, text_eq};

verus! {

/// The character of a decimal digit `d` (`0 <= d < 10`).
pub open spec fn digit(d: int) -> char {
    if d == 0 {
        '0'
    } else if d == 1 {
        '1'
    } else if d == 2 {
        '2'
    } else if d == 3 {
        '3'
    } else if d == 4 {
        '4'
    } else if d == 5 {
        '5'
    } else if d == 6 {
        '6'
    } else if d == 7 {
        '7'
    } else if d == 8 {
        '8'
    } else {
        '9'
    }
}

/// `v` written with exactly two digits, zero-padded (`v < 100`).
pub open spec fn two_digits(v: int) -> Seq<char> {
    seq![digit(v / 10), digit(v % 10)]
}

/// `v` written with exactly three digits, zero-padded (`v < 1000`).
pub open spec fn three_digits(v: int) -> Seq<char> {
    seq![digit(v / 100), digit((v / 10) % 10), digit(v % 10)]
}

/// The wall-clock time of day, `HH:MM:SS.mmm`, of an instant given in
/// milliseconds since the Unix epoch.
pub open spec fn clock_text(now_ms: int) -> Seq<char> {
    two_digits((now_ms / 3_600_000) % 24) + seq![':']
        + two_digits((now_ms / 60_000) % 60) + seq![':']
        + two_digits((now_ms / 1000) % 60) + seq!['.']
        + three_digits(now_ms % 1000)
}

/// One day in milliseconds.
pub open spec fn day_ms() -> int {
    86_400_000
}

proof fn lemma_unit_wraps_daily(ms: int, a: int, b: int, k: int)
    requires
        ms >= 0,
        a > 0,
        b > 0,
        k > 0,
        a * b * k == day_ms(),
    ensures
        ((ms % day_ms()) / a) % b == (ms / a) % b,
{
    let d = day_ms();
    let q = ms / d;
    let r = ms % d;
    lemma_fundamental_div_mod(ms, d);
    let r1 = r / a;
    let r0 = r % a;
    lemma_fundamental_div_mod(r, a);
    assert(ms == a * (q * b * k + r1) + r0) by (nonlinear_arith)
        requires
            ms == d * q + r,
            r == a * r1 + r0,
            a * b * k == d,
    ;
    assert(0 <= r0 < a);
    lemma_fundamental_div_mod_converse(ms, a, q * b * k + r1, r0);
    assert(q * b * k + r1 == b * (q * k) + r1) by (nonlinear_arith);
    lemma_mod_multiples_vanish(q * k, r1, b);
}

/// The clock text repeats every day: it depends only on the time of day.
pub proof fn lemma_clock_wraps_daily(ms: int)
    requires
        ms >= 0,
    ensures
        clock_text(ms % day_ms()) == clock_text(ms),
{
    lemma_unit_wraps_daily(ms, 3_600_000, 24, 1);
    lemma_unit_wraps_daily(ms, 60_000, 60, 24);
    lemma_unit_wraps_daily(ms, 1000, 60, 1440);
    lemma_unit_wraps_daily(ms, 1, 1000, 86400);
    assert(ms / 1 == ms);
    assert((ms % day_ms()) / 1 == ms % day_ms());
}

/// The clock text is twelve characters, `HH:MM:SS.mmm`: digits with `:`
/// and `.` separators, hours below 24 and minutes and seconds below 60.
pub proof fn lemma_clock_shape(ms: int)
    requires
        ms >= 0,
    ensures
        clock_text(ms).len() == 12,
        clock_text(ms)[2] == ':',
        clock_text(ms)[5] == ':',
        clock_text(ms)[8] == '.',
        0 <= (ms / 3_600_000) % 24 < 24,
        0 <= (ms / 60_000) % 60 < 60,
        0 <= (ms / 1000) % 60 < 60,
{
}

fn digit_char(d: u8) -> (c: char)
    requires
        d < 10,
    ensures
        c == digit(d as int),
{
    match d {
        0 => '0',
        1 => '1',
        2 => '2',
        3 => '3',
        4 => '4',
        5 => '5',
        6 => '6',
        7 => '7',
        8 => '8',
        _ => '9',
    }
}

fn push_two_digits(s: &mut String, v: u128)
    requires
        v < 100,
    ensures
        final(s)@ == old(s)@ + two_digits(v as int),
{
    push_char(s, digit_char((v / 10) as u8));
    push_char(s, digit_char((v % 10) as u8));
}

fn push_three_digits(s: &mut String, v: u128)
    requires
        v < 1000,
    ensures
        final(s)@ == old(s)@ + three_digits(v as int),
{
    push_char(s, digit_char((v / 100) as u8));
    push_char(s, digit_char(((v / 10) % 10) as u8));
    push_char(s, digit_char((v % 10) as u8));
}

/// Formats milliseconds since the Unix epoch as the time of day
/// `HH:MM:SS.mmm` (hours modulo 24).
pub fn format_clock(now_ms: u128) -> (text: String)
    ensures
        text@ == clock_text(now_ms as int),
{
    let millis = now_ms % 1000;
    let secs = (now_ms / 1000) % 60;
    let mins = (now_ms / (1000 * 60)) % 60;
    let hours = (now_ms / (1000 * 60 * 60)) % 24;
    let mut text = String::new();
    push_two_digits(&mut text, hours);
    push_char(&mut text, ':');
    push_two_digits(&mut text, mins);
    push_char(&mut text, ':');
    push_two_digits(&mut text, secs);
    push_char(&mut text, '.');
    push_three_digits(&mut text, millis);
    text
}

/// Category tag of informational lines.
pub const INFO: &'static str = "[INFO]";
/// Category tag of success lines.
pub const OK: &'static str = "[OK]";
/// Category tag of warnings.
pub const WARN: &'static str = "[WARN]";
/// Category tag of errors.
pub const ERROR: &'static str = "[ERROR]";
/// Category tag of debug lines.
pub const DEBUG: &'static str = "[DEBUG]";

/// The colour a log line is drawn in.
#[derive(Clone, Copy, Debug, PartialEq, Eq, Structural)]
pub enum LogColor {
    Blue,
    Green,
    Yellow,
    Red,
    Magenta,
    /// The colour that a colour name of no known colour (the empty name)
    /// stands for in the terminal-colouring crate.
    Unnamed,
}

/// The colour of a category: blue for `[INFO]`, green for `[OK]`, yellow
/// for `[WARN]`, red for `[ERROR]`, magenta for `[DEBUG]`.
pub open spec fn spec_category_color(category: Seq<char>) -> LogColor {
    if category == INFO@ {
        LogColor::Blue
    } else if category == OK@ {
        LogColor::Green
    } else if category == WARN@ {
        LogColor::Yellow
    } else if category == ERROR@ {
        LogColor::Red
    } else if category == DEBUG@ {
        LogColor::Magenta
    } else {
        LogColor::Unnamed
    }
}

/// The colour assigned to each category tag; a category of no known tag
/// gets [`LogColor::Unnamed`].
pub fn print_c_helper(category: &str) -> (color: LogColor)
    ensures
        color == spec_category_color(category@),
{
    if text_eq(category, INFO) {
        LogColor::Blue
    } else if text_eq(category, OK) {
        LogColor::Green
    } else if text_eq(category, WARN) {
        LogColor::Yellow
    } else if text_eq(category, ERROR) {
        LogColor::Red
    } else if text_eq(category, DEBUG) {
        LogColor::Magenta
    } else {
        LogColor::Unnamed
    }
}

/// One log line: `<timestamp> <category> [<subsystem> ]<msg>`, all drawn in
/// `color` (the timestamp dimmed).
#[derive(Debug)]
pub struct LogLine {
    pub timestamp: String,
    pub category: String,
    /// `None` when the subsystem is empty: the line then has no subsystem
    /// field at all.
    pub subsystem: Option<String>,
    pub msg: String,
    pub color: LogColor,
}

/// Lays out a log line from its parts.
pub fn compose_line(timestamp: String, category: &str, subsystem: &str, msg: &str) -> (line:
    LogLine)
    ensures
        line.timestamp@ == timestamp@,
        line.category@ == category@,
        line.msg@ == msg@,
        line.color == spec_category_color(category@),
        line.subsystem is None <==> subsystem@.len() == 0,
        line.subsystem matches Some(s) ==> s@ == subsystem@,
{
    let color = print_c_helper(category);
    let sub = if subsystem.is_empty() {
        None
    } else {
        Some(subsystem.to_owned())
    };
    LogLine { timestamp, category: category.to_owned(), subsystem: sub, msg: msg.to_owned(), color }
}

#[verifier::external_type_specification]
#[verifier::external_body]
pub struct ExSystemTime(SystemTime);

#[verifier::external_type_specification]
#[verifier::external_body]
pub struct ExSystemTimeError(SystemTimeError);

/// `SystemTime::now`: the current wall-clock time. Nothing is stated of it.
pub assume_specification[ SystemTime::now ]() -> SystemTime;

/// `Duration::as_millis`: the whole milliseconds of a duration. Nothing is
/// stated of it here, a `Duration` being opaque to these contracts.
pub assume_specification[ Duration::as_millis ](d: &Duration) -> u128;

/// `SystemTime::duration_since(UNIX_EPOCH)`: how far after the Unix epoch
/// `t` lies, or an error when `t` lies before it. Nothing is stated of the
/// outcome, which depends on the clock.
#[verifier::external_body]
fn since_unix_epoch(t: &SystemTime) -> Result<Duration, SystemTimeError> {
    t.duration_since(std::time::UNIX_EPOCH)
}

/// Milliseconds since the Unix epoch on the system clock, `None` when the
/// clock reads a time before the epoch. Both come from the clock alone, and a
/// `Duration` is opaque to these contracts, so no `ensures` is stated: what
/// follows the reading is stated by [`line_at`] and [`format_clock`], which
/// take it as an argument.
fn unix_millis() -> Option<u128> {
    let now = SystemTime::now();
    match since_unix_epoch(&now) {
        Ok(d) => Some(d.as_millis()),
        Err(_) => None,
    }
}

/// The current time of day as `HH:MM:SS.mmm`, or `None` when the system
/// clock reads a time before the Unix epoch.
pub fn timestamp() -> (text: Option<String>)
    ensures
        text matches Some(t) ==> exists|ms: u128| t@ == clock_text(ms as int),
{
    match unix_millis() {
        Some(ms) => Some(format_clock(ms)),
        None => None,
    }
}

/// `line` says `msg` under `category` and `subsystem`, in the category's
/// colour, with no subsystem field when `subsystem` is empty.
pub open spec fn is_line_of(line: LogLine, category: Seq<char>, subsystem: Seq<char>, msg: Seq<
    char,
>) -> bool {
    &&& line.category@ == category
    &&& line.msg@ == msg
    &&& line.color == spec_category_color(category)
    &&& (line.subsystem is None <==> subsystem.len() == 0)
    &&& (line.subsystem matches Some(s) ==> s@ == subsystem)
}

/// `line` is a line of `category`, `subsystem` and `msg` stamped with some
/// time of day.
pub open spec fn is_stamped_line_of(
    line: LogLine,
    category: Seq<char>,
    subsystem: Seq<char>,
    msg: Seq<char>,
) -> bool {
    &&& is_line_of(line, category, subsystem, msg)
    &&& exists|ms: u128| line.timestamp@ == clock_text(ms as int)
}

/// The log line of `category` stamped with the time of day of `now_ms`
/// (milliseconds since the Unix epoch); `None` when there is no reading.
pub fn line_at(now_ms: Option<u128>, category: &str, subsystem: &str, msg: &str) -> (line: Option<
    LogLine,
>)
    ensures
        match now_ms {
            None => line is None,
            Some(ms) => line matches Some(l) && is_line_of(l, category@, subsystem@, msg@)
                && l.timestamp@ == clock_text(ms as int),
        },
{
    match now_ms {
        Some(ms) => Some(compose_line(format_clock(ms), category, subsystem, msg)),
        None => None,
    }
}

/// The log line of `category`, stamped with the current time of day; `None`
/// when the system clock reads a time before the Unix epoch.
pub fn print_c(category: &str, subsystem: &str, msg: &str) -> (line: Option<LogLine>)
    ensures
        line matches Some(l) ==> is_stamped_line_of(l, category@, subsystem@, msg@),
{
    line_at(unix_millis(), category, subsystem, msg)
}

#[verifier::external_type_specification]
#[verifier::external_body]
pub struct ExColor(Color);

#[verifier::external_type_specification]
#[verifier::external_body]
pub struct ExColoredString(ColoredString);

/// The terminal colour of a [`LogColor`], one variant for another; the
/// unnamed colour is `colored::Color::from` of the empty name. Nothing is
/// stated of the result, a `Color` being opaque to these contracts.
#[verifier::external_body]
fn terminal_color(c: LogColor) -> Color {
    match c {
        LogColor::Blue => Color::Blue,
        LogColor::Green => Color::Green,
        LogColor::Yellow => Color::Yellow,
        LogColor::Red => Color::Red,
        LogColor::Magenta => Color::Magenta,
        LogColor::Unnamed => Color::from(String::new()),
    }
}

/// `Colorize::color` on a `&str`: the text set in a foreground colour.
/// Nothing is stated of the result, which is opaque to these contracts.
#[verifier::external_body]
fn paint(text: &str, color: Color) -> ColoredString {
    text.color(color)
}

/// `Colorize::dimmed` on a `&str`: the text in the dimmed style. Nothing
/// is stated of the result.
#[verifier::external_body]
fn dim(text: &str) -> ColoredString {
    text.dimmed()
}

/// `Colorize::color` on a `ColoredString`: the same text and style in a
/// foreground colour. Nothing is stated of the result.
#[verifier::external_body]
fn recolor(s: ColoredString, color: Color) -> ColoredString {
    s.color(color)
}

/// A text set in a colour, and possibly dimmed as well.
pub struct PaintedText {
    pub text: String,
    pub color: LogColor,
    pub dimmed: bool,
}

/// A painted text as plain values: its characters, colour and dimming.
pub open spec fn painted_view(p: PaintedText) -> (Seq<char>, LogColor, bool) {
    (p.text@, p.color, p.dimmed)
}

impl PaintedText {
    /// The text as the terminal-colouring crate draws it: dimmed first where
    /// it is dimmed, then set in its colour. Nothing is stated of the result,
    /// a `ColoredString` being opaque to these contracts; what is drawn is
    /// fixed by the fields.
    pub fn to_colored(&self) -> ColoredString {
        if self.dimmed {
            recolor(dim(self.text.as_str()), terminal_color(self.color))
        } else {
            paint(self.text.as_str(), terminal_color(self.color))
        }
    }
}

/// One piece of a printed log line: plain text, or a painted one.
pub enum Segment {
    Plain(String),
    Painted(PaintedText),
}

/// A segment as plain values: its characters, and its colour and dimming
/// where it is painted.
pub open spec fn segment_view(s: Segment) -> (Seq<char>, Option<(LogColor, bool)>) {
    match s {
        Segment::Plain(t) => (t@, None),
        Segment::Painted(p) => (p.text@, Some((p.color, p.dimmed))),
    }
}

/// A log line set for a terminal: the timestamp dimmed and coloured, the
/// category and the subsystem coloured, the message plain.
pub struct PaintedLine {
    pub timestamp: PaintedText,
    pub category: PaintedText,
    pub subsystem: Option<PaintedText>,
    pub msg: String,
}

/// The painted form of a painted text's parts, as plain values.
pub open spec fn painted_segment(p: PaintedText) -> (Seq<char>, Option<(LogColor, bool)>) {
    (p.text@, Some((p.color, p.dimmed)))
}

/// A plain segment of `t`, as plain values.
pub open spec fn plain_segment(t: Seq<char>) -> (Seq<char>, Option<(LogColor, bool)>) {
    (t, None)
}

/// The segments of a printed line, in order: each painted part followed by
/// a plain space, the subsystem and its space only where there is one, then
/// the plain message and the end of the line.
pub open spec fn line_segments(p: PaintedLine) -> Seq<(Seq<char>, Option<(LogColor, bool)>)> {
    let head = seq![
        painted_segment(p.timestamp),
        plain_segment(" "@),
        painted_segment(p.category),
        plain_segment(" "@),
    ];
    let sub = match p.subsystem {
        Some(s) => seq![painted_segment(s), plain_segment(" "@)],
        None => Seq::empty(),
    };
    head + sub + seq![plain_segment(p.msg@), plain_segment("\n"@)]
}

/// The characters of a printed line with its styling left out:
/// `<timestamp> <category> [<subsystem> ]<msg>` and the end of the line.
pub open spec fn line_text(p: PaintedLine) -> Seq<char> {
    let sub = match p.subsystem {
        Some(s) => s.text@ + " "@,
        None => Seq::empty(),
    };
    p.timestamp.text@ + " "@ + p.category.text@ + " "@ + sub + p.msg@ + "\n"@
}

impl LogLine {
    /// Sets the line for a terminal: the timestamp dimmed and in the line's
    /// colour, the category and the subsystem in the line's colour, the
    /// message plain.
    pub fn paint(&self) -> (p: PaintedLine)
        ensures
            painted_view(p.timestamp) == (self.timestamp@, self.color, true),
            painted_view(p.category) == (self.category@, self.color, false),
            match self.subsystem {
                None => p.subsystem is None,
                Some(s) => p.subsystem matches Some(ps) && painted_view(ps) == (s@, self.color,
                    false),
            },
            p.msg@ == self.msg@,
    {
        let timestamp = PaintedText { text: self.timestamp.clone(), color: self.color, dimmed: true };
        let category = PaintedText { text: self.category.clone(), color: self.color, dimmed: false };
        let subsystem = match &self.subsystem {
            Some(sub) => Some(PaintedText { text: sub.clone(), color: self.color, dimmed: false }),
            None => None,
        };
        PaintedLine { timestamp, category, subsystem, msg: self.msg.clone() }
    }
}

/// A copy of a painted text.
fn copy_painted(p: &PaintedText) -> (q: PaintedText)
    ensures
        painted_view(q) == painted_view(*p),
{
    PaintedText { text: p.text.clone(), color: p.color, dimmed: p.dimmed }
}

impl PaintedLine {
    /// The pieces to print, in order; see [`line_segments`].
    pub fn segments(&self) -> (segs: Vec<Segment>)
        ensures
            segs@.map_values(|s: Segment| segment_view(s)) == line_segments(*self),
    {
        let mut segs: Vec<Segment> = Vec::new();
        segs.push(Segment::Painted(copy_painted(&self.timestamp)));
        segs.push(Segment::Plain(String::from_str(" ")));
        segs.push(Segment::Painted(copy_painted(&self.category)));
        segs.push(Segment::Plain(String::from_str(" ")));
        match &self.subsystem {
            Some(sub) => {
                segs.push(Segment::Painted(copy_painted(sub)));
                segs.push(Segment::Plain(String::from_str(" ")));
            },
            None => {},
        }
        segs.push(Segment::Plain(self.msg.clone()));
        segs.push(Segment::Plain(String::from_str("\n")));
        proof {
            reveal_strlit(" ");
            reveal_strlit("\n");
        }
        assert(segs@.map_values(|s: Segment| segment_view(s)) =~= line_segments(*self));
        segs
    }

    /// The printed line without its styling.
    pub fn plain_text(&self) -> (t: String)
        ensures
            t@ == line_text(*self),
    {
        let mut t = String::new();
        push_text(&mut t, self.timestamp.text.as_str());
        push_char(&mut t, ' ');
        push_text(&mut t, self.category.text.as_str());
        push_char(&mut t, ' ');
        match &self.subsystem {
            Some(sub) => {
                push_text(&mut t, sub.text.as_str());
                push_char(&mut t, ' ');
            },
            None => {},
        }
        push_text(&mut t, self.msg.as_str());
        push_char(&mut t, '\n');
        proof {
            reveal_strlit(" ");
            reveal_strlit("\n");
        }
        assert(t@ =~= line_text(*self));
        t
    }
}

/// An `[INFO]` line (blue).
pub fn info(subsystem: &str, msg: &str) -> (line: Option<LogLine>)
    ensures
        line matches Some(l) ==> is_stamped_line_of(l, INFO@, subsystem@, msg@),
{
    print_c(INFO, subsystem, msg)
}

/// An `[OK]` line (green), for successes.
pub fn success(subsystem: &str, msg: &str) -> (line: Option<LogLine>)
    ensures
        line matches Some(l) ==> is_stamped_line_of(l, OK@, subsystem@, msg@),
{
    print_c(OK, subsystem, msg)
}

/// A `[WARN]` line (yellow).
pub fn warn(subsystem: &str, msg: &str) -> (line: Option<LogLine>)
    ensures
        line matches Some(l) ==> is_stamped_line_of(l, WARN@, subsystem@, msg@),
{
    print_c(WARN, subsystem, msg)
}

/// An `[ERROR]` line (red).
pub fn error(subsystem: &str, msg: &str) -> (line: Option<LogLine>)
    ensures
        line matches Some(l) ==> is_stamped_line_of(l, ERROR@, subsystem@, msg@),
{
    print_c(ERROR, subsystem, msg)
}

/// A `[DEBUG]` line (magenta).
pub fn debug(subsystem: &str, msg: &str) -> (line: Option<LogLine>)
    ensures
        line matches Some(l) ==> is_stamped_line_of(l, DEBUG@, subsystem@, msg@),
{
    print_c(DEBUG, subsystem, msg)
}

} // verus!
