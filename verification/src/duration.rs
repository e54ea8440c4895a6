//! History durations: a number followed by a unit of time, such as `180s`,
//! `3m` or `1.5h`. The seconds of a duration are computed from every digit
//! of its number and rounded down once, after the unit is applied.

use crate::decimal::{
    char_digit_value, char_is_digit, digits_value, is_digit, numeral_digits, numeral_milli,
    parse_numeral, quantity_of, saturated,
};
use crate::scientific::{
    all_digits, digits_capped, lemma_digits_append, lemma_pow10_grows, pow10, split_numeral,
};
use crate::text::{
    append_chars, chars_match_word, chars_of, matches_word, slice_chars, trim_chars, trimmed,
};
use vstd::arithmetic::div_mod::{lemma_div_denominator, lemma_hoist_over_denominator};
use vstd::prelude::*;

verus! {

/// Seconds of history kept when the configuration names no usable duration.
pub const DEFAULT_HISTORY_SECONDS: usize = 120;

/// A unit of time that a duration can be given in.
#[derive(Clone, Copy, Debug, PartialEq, Eq, Structural)]
pub enum TimeUnit {
    Seconds,
    Minutes,
    Hours,
}

impl TimeUnit {
    /// Seconds in one unit.
    pub open spec fn seconds(self) -> nat {
        match self {
            TimeUnit::Seconds => 1,
            TimeUnit::Minutes => 60,
            TimeUnit::Hours => 3600,
        }
    }

    /// The unit as shown on screen.
    pub open spec fn label(self) -> Seq<char> {
        match self {
            TimeUnit::Seconds => "s"@,
            TimeUnit::Minutes => "min"@,
            TimeUnit::Hours => "h"@,
        }
    }

    /// Executable form of [`TimeUnit::seconds`].
    pub fn multiplier(self) -> (m: u128)
        ensures
            m == self.seconds(),
    {
        match self {
            TimeUnit::Seconds => 1,
            TimeUnit::Minutes => 60,
            TimeUnit::Hours => 3600,
        }
    }

    /// Executable form of [`TimeUnit::label`].
    pub fn display(self) -> (s: &'static str)
        ensures
            s@ == self.label(),
    {
        match self {
            TimeUnit::Seconds => "s",
            TimeUnit::Minutes => "min",
            TimeUnit::Hours => "h",
        }
    }
}

/// The unit that the word `u` names, whatever the case of its letters.
pub open spec fn unit_of(u: Seq<char>) -> Option<TimeUnit> {
    if matches_word(u, "s"@) || matches_word(u, "sec"@) || matches_word(u, "secs"@)
        || matches_word(u, "second"@) || matches_word(u, "seconds"@) {
        Some(TimeUnit::Seconds)
    } else if matches_word(u, "m"@) || matches_word(u, "min"@) || matches_word(u, "mins"@)
        || matches_word(u, "minute"@) || matches_word(u, "minutes"@) {
        Some(TimeUnit::Minutes)
    } else if matches_word(u, "h"@) || matches_word(u, "hr"@) || matches_word(u, "hrs"@)
        || matches_word(u, "hour"@) || matches_word(u, "hours"@) {
        Some(TimeUnit::Hours)
    } else {
        None
    }
}

/// Executable form of [`unit_of`].
pub fn classify_unit(u: &Vec<char>) -> (k: Option<TimeUnit>)
    ensures
        k == unit_of(u@),
{
    if chars_match_word(u, "s") || chars_match_word(u, "sec") || chars_match_word(u, "secs")
        || chars_match_word(u, "second") || chars_match_word(u, "seconds") {
        Some(TimeUnit::Seconds)
    } else if chars_match_word(u, "m") || chars_match_word(u, "min") || chars_match_word(
        u,
        "mins",
    ) || chars_match_word(u, "minute") || chars_match_word(u, "minutes") {
        Some(TimeUnit::Minutes)
    } else if chars_match_word(u, "h") || chars_match_word(u, "hr") || chars_match_word(u, "hrs")
        || chars_match_word(u, "hour") || chars_match_word(u, "hours") {
        Some(TimeUnit::Hours)
    } else {
        None
    }
}

/// Index of the first character at or after `from` that is neither a digit
/// nor a point, or the length of `s` when there is none.
pub open spec fn number_end(s: Seq<char>, from: int) -> int
    decreases s.len() - from,
{
    if 0 <= from < s.len() && (is_digit(s[from]) || s[from] == '.') {
        number_end(s, from + 1)
    } else {
        from
    }
}

/// From a position inside a run of digits and points the run ends where it
/// ends from the start of that run.
proof fn lemma_number_end_step(s: Seq<char>, from: int, i: int)
    requires
        0 <= from <= i <= s.len(),
        forall|j: int| from <= j < i ==> is_digit(#[trigger] s[j]) || s[j] == '.',
    ensures
        number_end(s, from) == number_end(s, i),
    decreases i - from,
{
    if from < i {
        lemma_number_end_step(s, from + 1, i);
    }
}

/// Executable form of [`number_end`] from the start of `s`.
pub fn number_len(s: &Vec<char>) -> (p: usize)
    ensures
        p == number_end(s@, 0),
        p <= s.len(),
{
    let mut i: usize = 0;
    while i < s.len() && (char_is_digit(s[i]) || s[i] == '.')
        invariant
            i <= s.len(),
            forall|j: int| 0 <= j < i ==> is_digit(#[trigger] s@[j]) || s@[j] == '.',
        decreases s.len() - i,
    {
        i += 1;
    }
    proof {
        lemma_number_end_step(s@, 0, i as int);
    }
    i
}

/// The number and the unit of a duration as written: the trimmed text is
/// cut before its first character that is neither a digit nor a point.
/// `None` when no such character exists.
pub open spec fn duration_split(s: Seq<char>) -> Option<(Seq<char>, Seq<char>)> {
    let t = trimmed(s);
    let p = number_end(t, 0);
    if p == t.len() {
        None
    } else {
        Some((t.take(p), t.skip(p)))
    }
}

/// The number of a duration, in thousandths, and its unit as written.
/// `None` when the text has no unit or when what stands before the unit is
/// not a numeral.
pub open spec fn duration_parts(s: Seq<char>) -> Option<(nat, Seq<char>)> {
    match duration_split(s) {
        Some((number, unit)) => match numeral_milli(number) {
            Some(m) => Some((m, unit)),
            None => None,
        },
        None => None,
    }
}

/// Whole seconds in the number that `whole` and `fraction` write before
/// and after its point, taken in `unit`: every digit counts, the product is
/// rounded down and held to `usize::MAX`.
pub open spec fn whole_seconds(whole: Seq<char>, fraction: Seq<char>, unit: TimeUnit) -> nat {
    let exact = digits_value(whole + fraction) * unit.seconds() / pow10(fraction.len());
    if exact > usize::MAX {
        usize::MAX as nat
    } else {
        exact
    }
}

/// The seconds that the duration `s` lasts; `None` when `s` is not a numeral
/// followed by a known unit.
pub open spec fn duration_seconds(s: Seq<char>) -> Option<nat> {
    match duration_split(s) {
        Some((number, unit)) => match (numeral_digits(number), unit_of(unit)) {
            (Some((whole, fraction)), Some(u)) => Some(whole_seconds(whole, fraction, u)),
            _ => None,
        },
        None => None,
    }
}

/// The seconds in the digits after the point: the number they write, times
/// the seconds in one unit, divided by ten for every digit and rounded
/// down.
fn fraction_seconds(fraction: &Vec<char>, seconds: u128) -> (carry: u128)
    requires
        all_digits(fraction@),
        1 <= seconds <= 3600,
    ensures
        carry == digits_value(fraction@) * seconds / (pow10(fraction@.len()) as int),
        carry <= seconds,
{
    let k: usize = fraction.len();
    let mut carry: u128 = 0;
    let mut i: usize = k;
    proof {
        assert(fraction@.skip(k as int) =~= Seq::<char>::empty());
        assert(pow10(0) == 1);
        assert(digits_value(fraction@.skip(k as int)) * seconds == 0) by (nonlinear_arith)
            requires
                digits_value(fraction@.skip(k as int)) == 0,
        ;
    }
    while i > 0
        invariant
            i <= k == fraction.len(),
            all_digits(fraction@),
            1 <= seconds <= 3600,
            carry == digits_value(fraction@.skip(i as int)) * seconds / (pow10((k - i) as nat) as int),
            carry <= seconds,
        decreases i,
    {
        i -= 1;
        assert(is_digit(fraction@[i as int]));
        let d: u8 = char_digit_value(fraction[i]);
        proof {
            let rest = fraction@.skip(i + 1);
            let one = seq![fraction@[i as int]];
            let v = digits_value(rest) as int;
            let p = pow10(rest.len()) as int;
            let a = d as int * seconds as int;
            assert(one + rest =~= fraction@.skip(i as int));
            assert(one.drop_last() =~= Seq::<char>::empty());
            assert(one.last() == fraction@[i as int]);
            assert(digits_value(one.drop_last()) == 0);
            assert(digits_value(one) == d);
            lemma_digits_append(one, rest);
            lemma_pow10_grows(rest.len(), rest.len());
            assert((d * p + v) * seconds == v * seconds + a * p) by (nonlinear_arith)
                requires
                    a == d * seconds,
            ;
            lemma_hoist_over_denominator(v * seconds, a, p as nat);
            assert(0 <= a <= 9 * seconds) by (nonlinear_arith)
                requires
                    a == d * seconds,
                    0 <= d <= 9,
                    seconds >= 1,
            ;
            assert(0 <= v * seconds) by (nonlinear_arith)
                requires
                    v >= 0,
                    seconds >= 1,
            ;
            lemma_div_denominator(v * seconds + a * p, p, 10);
            assert(pow10((k - i) as nat) == 10 * p);
            assert(p * 10 == 10 * p);
        }
        assert(d as u128 * seconds <= 9 * seconds) by (nonlinear_arith)
            requires
                d <= 9,
                seconds >= 1,
        ;
        carry = (d as u128 * seconds + carry) / 10;
    }
    assert(fraction@.skip(0) =~= fraction@);
    carry
}

/// How a unit is shown: a known unit by its label, any other text as it is.
pub open spec fn unit_display(u: Seq<char>) -> Seq<char> {
    match unit_of(u) {
        Some(unit) => unit.label(),
        None => u,
    }
}

/// How the duration `s` is shown: the text before the unit as written, then
/// the unit by [`unit_display`]. Blank text shows as the default; text
/// without a unit shows trimmed.
pub open spec fn duration_display(s: Seq<char>) -> Seq<char> {
    let t = trimmed(s);
    let p = number_end(t, 0);
    if t.len() == 0 {
        "120s"@
    } else if p == t.len() {
        t
    } else {
        t.take(p) + unit_display(t.skip(p))
    }
}

/// Executable form of [`unit_display`].
pub fn display_unit(u: &Vec<char>) -> (d: String)
    ensures
        d@ == unit_display(u@),
{
    let mut d = String::new();
    match classify_unit(u) {
        Some(unit) => {
            let label = chars_of(unit.display());
            append_chars(&mut d, &label);
            assert(d@ =~= unit.label());
        },
        None => {
            append_chars(&mut d, u);
            assert(d@ =~= u@);
        },
    }
    d
}

/// Formats a duration for display: `3m` as `3min`, `1h` as `1h`, `180s` as
/// `180s`.
pub fn format_duration_display(duration_str: &str) -> (shown: String)
    ensures
        shown@ == duration_display(duration_str@),
{
    let t = trim_chars(&chars_of(duration_str));
    let mut shown = String::new();
    if t.len() == 0 {
        let fallback = chars_of("120s");
        append_chars(&mut shown, &fallback);
        assert(shown@ =~= "120s"@);
        return shown;
    }
    let p: usize = number_len(&t);
    if p == t.len() {
        append_chars(&mut shown, &t);
        assert(shown@ =~= t@);
        return shown;
    }
    let number = slice_chars(&t, 0, p);
    let unit = slice_chars(&t, p, t.len());
    let unit_shown = chars_of(display_unit(&unit).as_str());
    append_chars(&mut shown, &number);
    append_chars(&mut shown, &unit_shown);
    assert(shown@ =~= t@.take(p as int) + unit_display(t@.skip(p as int)));
    shown
}

/// Splits a duration into its number, in thousandths, and its unit as written.
pub fn parse_duration_parts(duration_str: &str) -> (r: Option<(i64, String)>)
    ensures
        match (duration_parts(duration_str@), r) {
            (Some((m, u)), Some((number, unit))) => number == saturated(m) && unit@ == u,
            (None, None) => true,
            _ => false,
        },
{
    let t = trim_chars(&chars_of(duration_str));
    let p: usize = number_len(&t);
    if p == t.len() {
        return None;
    }
    let number = slice_chars(&t, 0, p);
    let unit = slice_chars(&t, p, t.len());
    match parse_numeral(&number) {
        Some(m) => {
            let mut u = String::new();
            append_chars(&mut u, &unit);
            assert(u@ =~= t@.skip(p as int));
            Some((quantity_of(m), u))
        },
        None => None,
    }
}

/// Reads a duration such as `180s`, `3m` or `1.5h` as whole seconds.
pub fn parse_duration(duration_str: &str) -> (r: Option<usize>)
    ensures
        r == match duration_seconds(duration_str@) {
            Some(n) => Some(n as usize),
            None => None,
        },
{
    let t = trim_chars(&chars_of(duration_str));
    let p: usize = number_len(&t);
    if p == t.len() {
        return None;
    }
    let number = slice_chars(&t, 0, p);
    let unit = slice_chars(&t, p, t.len());
    let (whole, fraction) = match split_numeral(&number) {
        Some(parts) => parts,
        None => {
            return None;
        },
    };
    let k: TimeUnit = match classify_unit(&unit) {
        Some(k) => k,
        None => {
            return None;
        },
    };
    let seconds: u128 = k.multiplier();
    let bound: u128 = 1_000_000_000_000_000_000_000_000_000_000;
    let units: u128 = digits_capped(&whole, whole.len(), bound);
    let part: u128 = fraction_seconds(&fraction, seconds);
    proof {
        let w = digits_value(whole@) as int;
        let f = digits_value(fraction@) as int;
        let q = pow10(fraction@.len()) as int;
        assert(whole@.take(whole@.len() as int) =~= whole@);
        lemma_digits_append(whole@, fraction@);
        lemma_pow10_grows(fraction@.len(), fraction@.len());
        assert((w * q + f) * seconds == f * seconds + (w * seconds) * q) by (nonlinear_arith);
        lemma_hoist_over_denominator(f * seconds, w * seconds, q as nat);
        assert(w * seconds >= w) by (nonlinear_arith)
            requires
                w >= 0,
                seconds >= 1,
        ;
        assert(units * seconds <= bound * 3600) by (nonlinear_arith)
            requires
                0 <= units <= bound,
                1 <= seconds <= 3600,
        ;
        assert(units * seconds >= units) by (nonlinear_arith)
            requires
                units >= 0,
                seconds >= 1,
        ;
    }
    let total: u128 = units * seconds + part;
    if total > usize::MAX as u128 {
        Some(usize::MAX)
    } else {
        Some(total as usize)
    }
}

} // verus!
