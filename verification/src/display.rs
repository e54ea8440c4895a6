//! What the screen shows, as far as it can be computed without drawing:
//! wrapped text, status words, severities, scales and areas.

use crate::history::quantities;
use crate::metrics::clamped;
use crate::text::{
    append_chars, byte_len, byte_length, chars_of, decimal_text, lemma_byte_len_concat,
    lemma_byte_len_one, push_decimal, split_words, word_texts, words_of,
};
use vstd::prelude::*;

verus! {

/// The lines under way after `words` were laid out in turn: the finished
/// lines and the line being filled. A word joins the line being filled,
/// after a space, while the bytes of both together stay below `max_width`;
/// otherwise it starts the next line.
pub open spec fn laid_out(words: Seq<Seq<char>>, max_width: nat) -> (Seq<Seq<char>>, Seq<char>)
    decreases words.len(),
{
    if words.len() == 0 {
        (Seq::empty(), Seq::empty())
    } else {
        let (lines, current) = laid_out(words.drop_last(), max_width);
        let word = words.last();
        if current.len() == 0 {
            (lines, word)
        } else if byte_len(current) + byte_len(word) < max_width {
            (lines, current + seq![' '] + word)
        } else {
            (lines.push(current), word)
        }
    }
}

/// The lines that `text` wraps to at `max_width`.
pub open spec fn wrapped(text: Seq<char>, max_width: nat) -> Seq<Seq<char>> {
    let (lines, current) = laid_out(words_of(text), max_width);
    if current.len() == 0 {
        lines
    } else {
        lines.push(current)
    }
}

/// The texts of a list of strings.
pub open spec fn line_texts(lines: Seq<String>) -> Seq<Seq<char>> {
    Seq::new(lines.len(), |i: int| lines[i]@)
}

/// Breaks `text` into lines of words: a word is added to a line while the
/// bytes of the line and of the word together stay below `max_width`.
pub fn wrap_text(text: &str, max_width: usize) -> (lines: Vec<String>)
    ensures
        line_texts(lines@) == wrapped(text@, max_width as nat),
{
    let words = split_words(&chars_of(text));
    let mut lines: Vec<String> = Vec::new();
    let mut current: Vec<char> = Vec::new();
    let mut current_len: u128 = 0;
    let mut i: usize = 0;
    proof {
        assert(word_texts(words@).take(0) =~= Seq::<Seq<char>>::empty());
        assert(line_texts(lines@) =~= Seq::<Seq<char>>::empty());
    }
    while i < words.len()
        invariant
            i <= words.len(),
            word_texts(words@) == words_of(text@),
            laid_out(word_texts(words@).take(i as int), max_width as nat) == (
                line_texts(lines@),
                current@,
            ),
            current_len == byte_len(current@),
            current_len <= 0x4_0000_0000_0000_0000,
        decreases words.len() - i,
    {
        let word: &Vec<char> = &words[i];
        let word_len: u128 = byte_length(word);
        let ghost finished = line_texts(lines@);
        let ghost line = current@;
        proof {
            let upto = word_texts(words@).take(i + 1);
            assert(upto.drop_last() =~= word_texts(words@).take(i as int));
            assert(upto.last() == word@);
        }
        if current.len() == 0 {
            current = word.clone();
            current_len = word_len;
        } else if current_len + word_len < max_width as u128 {
            current.push(' ');
            let mut k: usize = 0;
            while k < word.len()
                invariant
                    k <= word.len(),
                    current@ == line + seq![' '] + word@.take(k as int),
                decreases word.len() - k,
            {
                current.push(word[k]);
                assert(line + seq![' '] + word@.take(k + 1) =~= (line + seq![' ']
                    + word@.take(k as int)).push(word@[k as int]));
                k += 1;
            }
            proof {
                assert(word@.take(word.len() as int) =~= word@);
                lemma_byte_len_concat(line, seq![' ']);
                lemma_byte_len_concat(line + seq![' '], word@);
                lemma_byte_len_one(' ');
            }
            current_len = current_len + 1 + word_len;
        } else {
            let mut finished_line = String::new();
            append_chars(&mut finished_line, &current);
            assert(finished_line@ =~= line);
            lines.push(finished_line);
            assert(line_texts(lines@) =~= finished.push(line));
            current = word.clone();
            current_len = word_len;
        }
        i += 1;
    }
    assert(word_texts(words@).take(words.len() as int) =~= word_texts(words@));
    if current.len() > 0 {
        let ghost finished = line_texts(lines@);
        let mut last_line = String::new();
        append_chars(&mut last_line, &current);
        assert(last_line@ =~= current@);
        lines.push(last_line);
        assert(line_texts(lines@) =~= finished.push(current@));
    }
    lines
}

/// Smallest terminal, in columns and rows, on which the screen is drawn.
pub const MIN_WIDTH: u16 = 60;

pub const MIN_HEIGHT: u16 = 25;

/// Whether a terminal of this size is too small for the screen.
pub fn terminal_too_small(width: u16, height: u16) -> (b: bool)
    ensures
        b == (width < MIN_WIDTH || height < MIN_HEIGHT),
{
    width < MIN_WIDTH || height < MIN_HEIGHT
}

/// An area of the terminal, in cells.
#[derive(Clone, Copy, Debug, PartialEq, Eq, Structural)]
pub struct Area {
    pub x: u16,
    pub y: u16,
    pub width: u16,
    pub height: u16,
}

/// Rows of the error popup.
pub const ERROR_POPUP_HEIGHT: u16 = 10;

/// Rows of the notice that the terminal is too small.
pub const NOTICE_HEIGHT: u16 = 8;

/// `a - b`, or zero where `b` is the larger.
pub open spec fn minus(a: int, b: int) -> int {
    if a >= b {
        a - b
    } else {
        0
    }
}

/// The smaller of two values.
pub open spec fn smaller(a: int, b: int) -> int {
    if a <= b {
        a
    } else {
        b
    }
}

/// Where the error popup stands on a terminal of this size: six tenths of
/// the width but at most 80 columns, centred.
pub fn error_popup_area(width: u16, height: u16) -> (area: Area)
    ensures
        area.width == smaller(width * 6 / 10, 80),
        area.height == ERROR_POPUP_HEIGHT,
        area.x == minus(width as int, area.width as int) / 2,
        area.y == minus(height as int, ERROR_POPUP_HEIGHT as int) / 2,
{
    let six_tenths: u32 = (width as u32) * 6 / 10;
    let popup_width: u16 = if six_tenths > 80 {
        80
    } else {
        six_tenths as u16
    };
    Area {
        x: (width - popup_width) / 2,
        y: if height >= ERROR_POPUP_HEIGHT {
            (height - ERROR_POPUP_HEIGHT) / 2
        } else {
            0
        },
        width: popup_width,
        height: ERROR_POPUP_HEIGHT,
    }
}

/// Bytes to a line of the message in an error popup of this width.
pub fn error_line_width(popup_width: u16) -> (n: usize)
    ensures
        n == minus(popup_width as int, 6),
{
    if popup_width >= 6 {
        (popup_width - 6) as usize
    } else {
        0
    }
}

/// Where the notice that the terminal is too small stands: at most 40
/// columns wide, centred.
pub fn notice_area(width: u16, height: u16) -> (area: Area)
    ensures
        area.width == smaller(40, width as int),
        area.height == NOTICE_HEIGHT,
        area.x == (width - area.width) / 2,
        area.y == minus(height as int, NOTICE_HEIGHT as int) / 2,
{
    let popup_width: u16 = if width < 40 {
        width
    } else {
        40
    };
    Area {
        x: (width - popup_width) / 2,
        y: if height >= NOTICE_HEIGHT {
            (height - NOTICE_HEIGHT) / 2
        } else {
            0
        },
        width: popup_width,
        height: NOTICE_HEIGHT,
    }
}

/// How fresh the data on screen is.
#[derive(Clone, Copy, Debug, PartialEq, Eq, Structural)]
pub enum ConnectionStatus {
    /// The last tick failed.
    Reconnecting,
    /// The last reading is less than five seconds old.
    Live,
    /// The last reading is less than ten seconds old.
    Sync,
    /// The last reading is older, or there is none.
    Stale,
}

/// Age, in milliseconds, that counts for a reading that does not exist.
pub const NEVER_FETCHED_MS: u64 = 999_000;

/// The status shown for an error flag and the age of the last reading.
pub open spec fn status_of(has_error: bool, age_ms: Option<u64>) -> ConnectionStatus {
    let age = match age_ms {
        Some(ms) => ms,
        None => NEVER_FETCHED_MS,
    };
    if has_error {
        ConnectionStatus::Reconnecting
    } else if age < 5000 {
        ConnectionStatus::Live
    } else if age < 10000 {
        ConnectionStatus::Sync
    } else {
        ConnectionStatus::Stale
    }
}

/// Executable form of [`status_of`].
pub fn connection_status(has_error: bool, age_ms: Option<u64>) -> (status: ConnectionStatus)
    ensures
        status == status_of(has_error, age_ms),
{
    let age: u64 = match age_ms {
        Some(ms) => ms,
        None => NEVER_FETCHED_MS,
    };
    if has_error {
        ConnectionStatus::Reconnecting
    } else if age < 5000 {
        ConnectionStatus::Live
    } else if age < 10000 {
        ConnectionStatus::Sync
    } else {
        ConnectionStatus::Stale
    }
}

/// Which of the four frames of the spinner shows at `epoch_ms`: the frame
/// changes every quarter of a second.
pub fn spinner_frame(epoch_ms: u128) -> (frame: u8)
    ensures
        frame == (epoch_ms / 250) % 4,
{
    ((epoch_ms / 250) % 4) as u8
}

/// How much a value calls for attention.
#[derive(Clone, Copy, Debug, PartialEq, Eq, Structural)]
pub enum Severity {
    Normal,
    Warning,
    Critical,
}

/// A temperature, in thousandths of a degree: a warning from 35 degrees.
pub fn temperature_severity(temperature: i64) -> (s: Severity)
    ensures
        s == if temperature >= 35_000 {
            Severity::Warning
        } else {
            Severity::Normal
        },
{
    if temperature >= 35_000 {
        Severity::Warning
    } else {
        Severity::Normal
    }
}

/// An AC voltage, in thousandths of a volt: critical below 210 volts, a
/// warning below 220.
pub fn voltage_severity(voltage: i64) -> (s: Severity)
    ensures
        s == if voltage < 210_000 {
            Severity::Critical
        } else if voltage < 220_000 {
            Severity::Warning
        } else {
            Severity::Normal
        },
{
    if voltage < 210_000 {
        Severity::Critical
    } else if voltage < 220_000 {
        Severity::Warning
    } else {
        Severity::Normal
    }
}

/// A current, in thousandths of an ampere: critical from 100 amperes, a
/// warning from 80.
pub fn current_severity(current: i64) -> (s: Severity)
    ensures
        s == if current >= 100_000 {
            Severity::Critical
        } else if current >= 80_000 {
            Severity::Warning
        } else {
            Severity::Normal
        },
{
    if current >= 100_000 {
        Severity::Critical
    } else if current >= 80_000 {
        Severity::Warning
    } else {
        Severity::Normal
    }
}

/// The product of two bounded values that are not negative is bounded by
/// the product of the bounds.
proof fn lemma_product_bounded(a: int, b: int, a_max: int, b_max: int)
    requires
        0 <= a <= a_max,
        0 <= b <= b_max,
    ensures
        0 <= a * b <= a_max * b_max,
{
    assert(0 <= a * b <= a_max * b_max) by (nonlinear_arith)
        requires
            0 <= a <= a_max,
            0 <= b <= b_max,
    ;
}

/// A part of a whole, taken of `x` and rounded down or up, lies between
/// zero and `x`.
proof fn lemma_share_bounded(x: int, part: int, whole: int)
    requires
        0 <= x,
        0 <= part <= whole,
        0 < whole,
    ensures
        0 <= x * part / whole <= x,
        0 <= (x * part + whole - 1) / whole <= x,
{
    assert(0 <= x * part <= x * whole) by (nonlinear_arith)
        requires
            0 <= x,
            0 <= part <= whole,
    ;
    assert(0 <= x * part / whole <= x && 0 <= (x * part + whole - 1) / whole <= x)
        by (nonlinear_arith)
        requires
            0 <= x * part <= x * whole,
            0 < whole,
    ;
}

/// Cells filled, out of `width`, by `value` on a scale that ends at `scale`:
/// none for a share of zero or less, all for a share of one or more, else
/// the share of `width` rounded down. A scale of zero counts as reached by
/// every value that is not negative.
pub open spec fn filled(value: int, scale: int, width: int) -> int {
    if scale > 0 {
        if value <= 0 {
            0
        } else if value >= scale {
            width
        } else {
            value * width / scale
        }
    } else if scale < 0 {
        if value >= 0 {
            0
        } else if value <= scale {
            width
        } else {
            (-value) * width / (-scale)
        }
    } else if value >= 0 {
        width
    } else {
        0
    }
}

/// Executable form of [`filled`].
pub fn fill(value: i64, scale: i64, width: u16) -> (cells: u16)
    ensures
        cells == filled(value as int, scale as int, width as int),
        cells <= width,
{
    if scale == 0 {
        return if value >= 0 {
            width
        } else {
            0
        };
    }
    let (v, s): (i128, i128) = if scale > 0 {
        (value as i128, scale as i128)
    } else {
        (-(value as i128), -(scale as i128))
    };
    if v <= 0 {
        0
    } else if v >= s {
        width
    } else {
        proof {
            lemma_product_bounded(v as int, width as int, s as int, 0xffff);
            lemma_share_bounded(width as int, v as int, s as int);
            assert(v * width == width * v) by (nonlinear_arith);
        }
        let cells: i128 = v * (width as i128) / s;
        cells as u16
    }
}

/// Power, in thousandths of a watt, at which the power gauges are full.
pub const GAUGE_POWER_SCALE: i64 = 18_000_000;

/// Charge, in thousandths of a percent, at which the charge gauge is full.
pub const GAUGE_CHARGE_SCALE: i64 = 100_000;

/// Thousandths of the gauge that `value` fills on a scale ending at `scale`.
pub fn gauge_permille(value: i64, scale: i64) -> (permille: u16)
    ensures
        permille == filled(value as int, scale as int, 1000),
        permille <= 1000,
{
    fill(value, scale, 1000)
}

/// Columns next to a bar of the daily chart that hold its label and value.
pub const BAR_LEGEND_WIDTH: u16 = 35;

/// The columns of a daily bar inside `inner_width`: those left for the bar
/// next to its legend, and those of them that `value` fills on a scale
/// ending at `max_scale`.
pub fn bar_widths(inner_width: u16, value: i64, max_scale: i64) -> (widths: (u16, u16))
    ensures
        ({
            let (available, bar) = widths;
            &&& available == minus(inner_width as int, BAR_LEGEND_WIDTH as int)
            &&& bar == filled(value as int, max_scale as int, available as int)
        }),
{
    let available: u16 = if inner_width >= BAR_LEGEND_WIDTH {
        inner_width - BAR_LEGEND_WIDTH
    } else {
        0
    };
    (available, fill(value, max_scale, available))
}

/// Most segments that the shading of a bar is cut into.
pub const MAX_GRADIENT_STEPS: u16 = 10;

/// Number of segments that a bar of `bar` columns is shaded in.
pub fn gradient_steps(bar: u16) -> (steps: u16)
    ensures
        steps == smaller(bar as int, MAX_GRADIENT_STEPS as int),
{
    if bar < MAX_GRADIENT_STEPS {
        bar
    } else {
        MAX_GRADIENT_STEPS
    }
}

/// Column, counted from the start of a bar of `bar` columns, at which
/// segment `step` of `steps` begins. A step past the last counts as the
/// end of the bar; without segments every step is at the start.
pub open spec fn segment_column(step: int, steps: int, bar: int) -> int {
    if steps <= 0 {
        0
    } else {
        smaller(step, steps) * bar / steps
    }
}

/// Executable form of [`segment_column`].
pub fn segment_start(step: u16, steps: u16, bar: u16) -> (column: u16)
    ensures
        column == segment_column(step as int, steps as int, bar as int),
        column <= bar,
{
    if steps == 0 {
        return 0;
    }
    let held: u16 = if step > steps {
        steps
    } else {
        step
    };
    proof {
        lemma_product_bounded(held as int, bar as int, 0xffff, 0xffff);
        lemma_share_bounded(bar as int, held as int, steps as int);
        assert(held * bar == bar * held) by (nonlinear_arith);
    }
    let column: u32 = (held as u32) * (bar as u32) / (steps as u32);
    column as u16
}

/// A colour by its red, green and blue parts.
#[derive(Clone, Copy, Debug, PartialEq, Eq, Structural)]
pub struct Rgb {
    pub r: u8,
    pub g: u8,
    pub b: u8,
}

/// Number of stops in the rainbow.
pub const RAINBOW_STOPS: usize = 49;

/// Stop `i` of the rainbow: from red over orange, yellow, green and cyan to
/// blue.
pub open spec fn rainbow_stop(i: int) -> Rgb {
    if i == 0 {
        Rgb { r: 180, g: 0, b: 0 }
    } else if i == 1 {
        Rgb { r: 180, g: 10, b: 0 }
    } else if i == 2 {
        Rgb { r: 180, g: 20, b: 0 }
    } else if i == 3 {
        Rgb { r: 180, g: 30, b: 0 }
    } else if i == 4 {
        Rgb { r: 180, g: 40, b: 0 }
    } else if i == 5 {
        Rgb { r: 180, g: 50, b: 0 }
    } else if i == 6 {
        Rgb { r: 180, g: 60, b: 0 }
    } else if i == 7 {
        Rgb { r: 180, g: 70, b: 0 }
    } else if i == 8 {
        Rgb { r: 180, g: 80, b: 0 }
    } else if i == 9 {
        Rgb { r: 180, g: 90, b: 0 }
    } else if i == 10 {
        Rgb { r: 180, g: 100, b: 0 }
    } else if i == 11 {
        Rgb { r: 180, g: 110, b: 0 }
    } else if i == 12 {
        Rgb { r: 180, g: 120, b: 0 }
    } else if i == 13 {
        Rgb { r: 180, g: 130, b: 0 }
    } else if i == 14 {
        Rgb { r: 180, g: 140, b: 0 }
    } else if i == 15 {
        Rgb { r: 180, g: 150, b: 0 }
    } else if i == 16 {
        Rgb { r: 180, g: 155, b: 0 }
    } else if i == 17 {
        Rgb { r: 180, g: 160, b: 0 }
    } else if i == 18 {
        Rgb { r: 180, g: 165, b: 0 }
    } else if i == 19 {
        Rgb { r: 180, g: 170, b: 0 }
    } else if i == 20 {
        Rgb { r: 180, g: 175, b: 0 }
    } else if i == 21 {
        Rgb { r: 160, g: 175, b: 0 }
    } else if i == 22 {
        Rgb { r: 140, g: 175, b: 0 }
    } else if i == 23 {
        Rgb { r: 120, g: 175, b: 0 }
    } else if i == 24 {
        Rgb { r: 100, g: 175, b: 0 }
    } else if i == 25 {
        Rgb { r: 80, g: 175, b: 0 }
    } else if i == 26 {
        Rgb { r: 60, g: 175, b: 0 }
    } else if i == 27 {
        Rgb { r: 40, g: 175, b: 0 }
    } else if i == 28 {
        Rgb { r: 20, g: 175, b: 0 }
    } else if i == 29 {
        Rgb { r: 0, g: 175, b: 0 }
    } else if i == 30 {
        Rgb { r: 0, g: 175, b: 20 }
    } else if i == 31 {
        Rgb { r: 0, g: 175, b: 40 }
    } else if i == 32 {
        Rgb { r: 0, g: 175, b: 60 }
    } else if i == 33 {
        Rgb { r: 0, g: 175, b: 80 }
    } else if i == 34 {
        Rgb { r: 0, g: 175, b: 100 }
    } else if i == 35 {
        Rgb { r: 0, g: 175, b: 120 }
    } else if i == 36 {
        Rgb { r: 0, g: 175, b: 140 }
    } else if i == 37 {
        Rgb { r: 0, g: 175, b: 160 }
    } else if i == 38 {
        Rgb { r: 0, g: 160, b: 175 }
    } else if i == 39 {
        Rgb { r: 0, g: 145, b: 175 }
    } else if i == 40 {
        Rgb { r: 0, g: 130, b: 175 }
    } else if i == 41 {
        Rgb { r: 0, g: 115, b: 175 }
    } else if i == 42 {
        Rgb { r: 5, g: 105, b: 165 }
    } else if i == 43 {
        Rgb { r: 10, g: 95, b: 155 }
    } else if i == 44 {
        Rgb { r: 15, g: 85, b: 145 }
    } else if i == 45 {
        Rgb { r: 20, g: 75, b: 135 }
    } else if i == 46 {
        Rgb { r: 25, g: 80, b: 140 }
    } else if i == 47 {
        Rgb { r: 30, g: 85, b: 145 }
    } else {
        Rgb { r: 35, g: 90, b: 150 }
    }
}

/// Executable form of [`rainbow_stop`]: past the last stop the colour is
/// that of the last.
pub fn stop_color(i: usize) -> (c: Rgb)
    ensures
        c == rainbow_stop(i as int),
{
    let k: u8 = if i >= RAINBOW_STOPS {
        48
    } else {
        i as u8
    };
    if k <= 15 {
        Rgb { r: 180, g: 10 * k, b: 0 }
    } else if k <= 20 {
        Rgb { r: 180, g: 150 + 5 * (k - 15), b: 0 }
    } else if k <= 29 {
        Rgb { r: 180 - 20 * (k - 20), g: 175, b: 0 }
    } else if k <= 37 {
        Rgb { r: 0, g: 175, b: 20 * (k - 29) }
    } else if k <= 41 {
        Rgb { r: 0, g: 175 - 15 * (k - 37), b: 175 }
    } else if k <= 45 {
        Rgb { r: 5 * (k - 41), g: 115 - 10 * (k - 41), b: 175 - 10 * (k - 41) }
    } else {
        Rgb { r: 20 + 5 * (k - 45), g: 75 + 5 * (k - 45), b: 135 + 5 * (k - 45) }
    }
}

/// The value `part` thousandths of the way from `from` to `to`, rounded
/// down; more than a thousand thousandths count as a thousand.
pub open spec fn blend(from: int, to: int, part: int) -> int {
    let held = smaller(part, 1000);
    if to >= from {
        from + (to - from) * held / 1000
    } else {
        from - ((from - to) * held + 999) / 1000
    }
}

/// Executable form of [`blend`].
pub fn blend_channel(from: u8, to: u8, part: u16) -> (c: u8)
    ensures
        c == blend(from as int, to as int, part as int),
{
    let part: u16 = if part > 1000 {
        1000
    } else {
        part
    };
    if to >= from {
        proof {
            lemma_product_bounded(to - from, part as int, 255, 1000);
            lemma_share_bounded(to - from, part as int, 1000);
        }
        let up: u32 = ((to - from) as u32) * (part as u32) / 1000;
        (from as u32 + up) as u8
    } else {
        proof {
            lemma_product_bounded(from - to, part as int, 255, 1000);
            lemma_share_bounded(from - to, part as int, 1000);
        }
        let down: u32 = (((from - to) as u32) * (part as u32) + 999) / 1000;
        (from as u32 - down) as u8
    }
}

/// The rainbow colour at `permille` thousandths of the way through the
/// stops; more than a thousand counts as a thousand. Between two stops the
/// colour is blended part by part.
pub open spec fn rainbow_color(permille: int) -> Rgb {
    let position = smaller(permille, 1000) * (RAINBOW_STOPS - 1);
    let stop = position / 1000;
    let part = position % 1000;
    if part == 0 {
        rainbow_stop(stop)
    } else {
        Rgb {
            r: blend(rainbow_stop(stop).r as int, rainbow_stop(stop + 1).r as int, part) as u8,
            g: blend(rainbow_stop(stop).g as int, rainbow_stop(stop + 1).g as int, part) as u8,
            b: blend(rainbow_stop(stop).b as int, rainbow_stop(stop + 1).b as int, part) as u8,
        }
    }
}

/// Executable form of [`rainbow_color`].
pub fn get_rainbow_gradient(permille: u16) -> (c: Rgb)
    ensures
        c == rainbow_color(permille as int),
{
    let held: u32 = if permille > 1000 {
        1000
    } else {
        permille as u32
    };
    let position: u32 = held * 48;
    let stop: usize = (position / 1000) as usize;
    let part: u16 = (position % 1000) as u16;
    if part == 0 {
        stop_color(stop)
    } else {
        let from = stop_color(stop);
        let to = stop_color(stop + 1);
        Rgb {
            r: blend_channel(from.r, to.r, part),
            g: blend_channel(from.g, to.g, part),
            b: blend_channel(from.b, to.b, part),
        }
    }
}

/// `channel` at the brightness of segment `step` of `steps`: four tenths at
/// the first segment, rising by six tenths over the whole bar. Without
/// segments the brightness is that of the first; a step past the last is
/// at full brightness.
pub open spec fn shaded(channel: int, step: int, steps: int) -> int {
    if steps <= 0 {
        channel * 4 / 10
    } else {
        channel * (4 * steps + 6 * smaller(step, steps)) / (10 * steps)
    }
}

/// Executable form of [`shaded`].
pub fn shade_channel(channel: u8, step: u16, steps: u16) -> (c: u8)
    ensures
        c == shaded(channel as int, step as int, steps as int),
{
    if steps == 0 {
        ((channel as u32) * 4 / 10) as u8
    } else {
        let step: u16 = if step > steps {
            steps
        } else {
            step
        };
        let factor: u32 = 4 * (steps as u32) + 6 * (step as u32);
        let whole: u32 = 10 * (steps as u32);
        proof {
            lemma_product_bounded(channel as int, factor as int, 255, 655_350);
            lemma_share_bounded(channel as int, factor as int, whole as int);
        }
        let c: u32 = (channel as u32) * factor / whole;
        c as u8
    }
}

/// `base` at the brightness of segment `step` of `steps`.
pub fn apply_gradient(base: Rgb, step: u16, steps: u16) -> (c: Rgb)
    ensures
        c == (Rgb {
            r: shaded(base.r as int, step as int, steps as int) as u8,
            g: shaded(base.g as int, step as int, steps as int) as u8,
            b: shaded(base.b as int, step as int, steps as int) as u8,
        }),
{
    Rgb {
        r: shade_channel(base.r, step, steps),
        g: shade_channel(base.g, step, steps),
        b: shade_channel(base.b, step, steps),
    }
}

/// `base` at a quarter of its brightness, for the empty part of a bar.
pub fn dimmed(base: Rgb) -> (c: Rgb)
    ensures
        c == (Rgb { r: base.r / 4, g: base.g / 4, b: base.b / 4 }),
{
    Rgb { r: base.r / 4, g: base.g / 4, b: base.b / 4 }
}

/// Energy left in a battery of `capacity` at `soc` percent charge, all in
/// thousandths and rounded towards zero, held to a quantity.
pub open spec fn remaining_energy(soc: int, capacity: int) -> int {
    let product = soc * capacity;
    clamped(
        if product >= 0 {
            product / 100_000
        } else {
            -((-product) / 100_000)
        },
    )
}

/// Executable form of [`remaining_energy`].
pub fn remaining_capacity(soc: i64, capacity: i64) -> (energy: i64)
    ensures
        energy == remaining_energy(soc as int, capacity as int),
{
    assert(-0x4000_0000_0000_0000_0000_0000_0000_0000 <= (soc as int) * (capacity as int)
        <= 0x4000_0000_0000_0000_0000_0000_0000_0000) by (nonlinear_arith)
        requires
            -0x8000_0000_0000_0000 <= soc <= 0x8000_0000_0000_0000,
            -0x8000_0000_0000_0000 <= capacity <= 0x8000_0000_0000_0000,
    ;
    let product: i128 = (soc as i128) * (capacity as i128);
    let magnitude: u128 = if product >= 0 {
        product as u128
    } else {
        (-product) as u128
    };
    let quotient: u128 = magnitude / 100_000;
    let held: i64 = if quotient > 9_223_372_036_854_775_807 {
        9_223_372_036_854_775_807
    } else {
        quotient as i64
    };
    if product >= 0 {
        held
    } else {
        -held
    }
}

/// The lowest of zero and `values`.
pub open spec fn lowest(values: Seq<int>) -> int
    decreases values.len(),
{
    if values.len() == 0 {
        0
    } else {
        smaller(lowest(values.drop_last()), values.last())
    }
}

/// Power, in thousandths of a watt, between two marks of the chart's
/// power axis: two kilowatts.
pub const CHART_STEP: i64 = 2_000_000;

/// Power, in thousandths of a watt, up to which the chart reaches when the
/// configuration names no peak power.
pub const DEFAULT_CHART_POWER: i64 = 20_000_000;

/// The lower end of the chart's power axis, in kilowatts: the lowest
/// battery power, and at most zero, rounded down to a mark.
pub open spec fn chart_floor(battery: Seq<int>) -> int {
    lowest(battery) / (CHART_STEP as int) * 2
}

/// The upper end of the chart's power axis, in kilowatts: the peak power
/// rounded up to a mark, and at least the first mark.
pub open spec fn chart_ceiling(max_solar_power: Option<i64>) -> int {
    let power = match max_solar_power {
        Some(p) => p as int,
        None => DEFAULT_CHART_POWER as int,
    };
    let marks = (power + CHART_STEP - 1) / (CHART_STEP as int);
    if marks >= 1 {
        marks * 2
    } else {
        2
    }
}

/// The ends of the chart's power axis, in kilowatts, for the battery power
/// across the history and the configured peak power.
pub fn chart_bounds(battery: &Vec<i64>, max_solar_power: Option<i64>) -> (ends: (i64, i64))
    ensures
        ({
            let (low, high) = ends;
            &&& low == chart_floor(quantities(battery@))
            &&& high == chart_ceiling(max_solar_power)
            &&& low <= 0 < high
        }),
{
    let ghost values = quantities(battery@);
    let mut least: i64 = 0;
    let mut i: usize = 0;
    while i < battery.len()
        invariant
            i <= battery.len(),
            values == quantities(battery@),
            least == lowest(values.take(i as int)),
            least <= 0,
        decreases battery.len() - i,
    {
        proof {
            assert(values.take(i + 1).drop_last() =~= values.take(i as int));
        }
        if battery[i] < least {
            least = battery[i];
        }
        i += 1;
    }
    assert(values.take(battery.len() as int) =~= values);
    let depth: u64 = if least == i64::MIN {
        9_223_372_036_854_775_808
    } else {
        (-least) as u64
    };
    let marks_down: u64 = (depth + 1_999_999) / 2_000_000;
    let low: i64 = -((marks_down * 2) as i64);
    let power: i64 = match max_solar_power {
        Some(p) => p,
        None => DEFAULT_CHART_POWER,
    };
    let high: i64 = if power > 0 {
        (((power as u64 + 1_999_999) / 2_000_000) * 2) as i64
    } else {
        2
    };
    (low, high)
}

/// Seconds between two fetches that the header names when the
/// configuration names none.
pub const DEFAULT_REFRESH_SECONDS: u64 = 5;

/// What the header says of the refresh rate.
pub open spec fn refresh_text(fetch_interval_seconds: Option<u64>) -> Seq<char> {
    let seconds = match fetch_interval_seconds {
        Some(n) => n,
        None => DEFAULT_REFRESH_SECONDS,
    };
    if seconds == 0 {
        "Refresh: realtime"@
    } else {
        "Refresh: "@ + decimal_text(seconds as nat) + "s"@
    }
}

/// Executable form of [`refresh_text`].
pub fn refresh_label(fetch_interval_seconds: Option<u64>) -> (label: String)
    ensures
        label@ == refresh_text(fetch_interval_seconds),
{
    let seconds: u64 = match fetch_interval_seconds {
        Some(n) => n,
        None => DEFAULT_REFRESH_SECONDS,
    };
    let mut label = String::new();
    if seconds == 0 {
        append_chars(&mut label, &chars_of("Refresh: realtime"));
        assert(label@ =~= "Refresh: realtime"@);
    } else {
        let mut digits: Vec<char> = Vec::new();
        push_decimal(&mut digits, seconds);
        append_chars(&mut label, &chars_of("Refresh: "));
        append_chars(&mut label, &digits);
        append_chars(&mut label, &chars_of("s"));
        assert(label@ =~= "Refresh: "@ + decimal_text(seconds as nat) + "s"@);
    }
    label
}

} // verus!
