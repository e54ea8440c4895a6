//! Unsigned decimal numerals and their value in thousandths.
//!
//! A numeral is a run of digits, optionally followed by a point and a second
//! run of digits, with at least one digit overall: `12`, `12.`, `.5`, `12.345`.
//! Its value is kept to three decimal places; further places are dropped.

use vstd::prelude::*;

verus! {

/// Largest magnitude a quantity can hold, in thousandths.
pub const QUANTITY_MAX: i64 = 9_223_372_036_854_775_807;

/// Whether `c` is one of `0` to `9`.
pub open spec fn is_digit(c: char) -> bool {
    '0' <= c <= '9'
}

/// The number that the digit `c` stands for.
pub open spec fn digit_value(c: char) -> nat {
    (c as u32 - 48) as nat
}

/// Executable form of [`is_digit`].
pub fn char_is_digit(c: char) -> (b: bool)
    ensures
        b == is_digit(c),
{
    '0' <= c && c <= '9'
}

/// Executable form of [`digit_value`].
pub(crate) fn char_digit_value(c: char) -> (d: u8)
    requires
        is_digit(c),
    ensures
        d == digit_value(c),
        d <= 9,
{
    (c as u8) - 48
}

/// The number written by a run of digits, most significant first.
pub open spec fn digits_value(s: Seq<char>) -> nat
    decreases s.len(),
{
    if s.len() == 0 {
        0
    } else {
        digits_value(s.drop_last()) * 10 + digit_value(s.last())
    }
}

/// Index of the first character at or after `from` that is not a digit, or
/// the length of `s` when there is none.
pub open spec fn digit_run_end(s: Seq<char>, from: int) -> int
    decreases s.len() - from,
{
    if 0 <= from < s.len() && is_digit(s[from]) {
        digit_run_end(s, from + 1)
    } else {
        from
    }
}

/// Thousandths written by the digits after the point: the first three count.
pub open spec fn fraction_milli(f: Seq<char>) -> nat {
    (if f.len() > 0 {
        digit_value(f[0]) * 100
    } else {
        0
    }) + (if f.len() > 1 {
        digit_value(f[1]) * 10
    } else {
        0
    }) + (if f.len() > 2 {
        digit_value(f[2])
    } else {
        0
    })
}

/// The digits of the unsigned numeral `s` before and after its point, or
/// `None` when `s` is not a numeral.
pub open spec fn numeral_digits(s: Seq<char>) -> Option<(Seq<char>, Seq<char>)> {
    let p = digit_run_end(s, 0);
    if p == s.len() {
        if p > 0 {
            Some((s, Seq::empty()))
        } else {
            None
        }
    } else if s[p] != '.' {
        None
    } else if digit_run_end(s, p + 1) != s.len() || s.len() == 1 {
        None
    } else {
        Some((s.take(p), s.skip(p + 1)))
    }
}

/// The value of the unsigned numeral `s` in thousandths, or `None` when `s`
/// is not a numeral.
pub open spec fn numeral_milli(s: Seq<char>) -> Option<nat> {
    match numeral_digits(s) {
        Some((whole, fraction)) => Some(digits_value(whole) * 1000 + fraction_milli(fraction)),
        None => None,
    }
}

/// Bound at which a numeral's value in thousandths stops being tracked.
pub const NUMERAL_CAP: u128 = 100_000_000_000_000_000_000_000;

/// `m` held to [`NUMERAL_CAP`].
pub open spec fn capped(m: nat) -> nat {
    if m > NUMERAL_CAP {
        NUMERAL_CAP as nat
    } else {
        m
    }
}

/// `m` held to the largest magnitude a quantity can have.
pub open spec fn saturated(m: nat) -> int {
    if m > QUANTITY_MAX {
        QUANTITY_MAX as int
    } else {
        m as int
    }
}

/// From a position inside a run of digits the run ends where it ends from
/// the start of that run.
pub(crate) proof fn lemma_digit_run_step(s: Seq<char>, from: int, i: int)
    requires
        0 <= from <= i <= s.len(),
        forall|j: int| from <= j < i ==> is_digit(#[trigger] s[j]),
    ensures
        digit_run_end(s, from) == digit_run_end(s, i),
    decreases i - from,
{
    if from < i {
        lemma_digit_run_step(s, from + 1, i);
    }
}

/// Reads the unsigned numeral `s`: its value in thousandths, held to
/// [`NUMERAL_CAP`].
pub fn parse_numeral(s: &Vec<char>) -> (r: Option<u128>)
    ensures
        r == match numeral_milli(s@) {
            Some(m) => Some(capped(m) as u128),
            None => None,
        },
        r is Some ==> r->0 <= NUMERAL_CAP,
{
    let n: usize = s.len();
    let cap: u128 = 100_000_000_000_000_000_000;
    let mut acc: u128 = 0;
    let mut i: usize = 0;
    while i < n && char_is_digit(s[i])
        invariant
            i <= n == s.len(),
            cap == 100_000_000_000_000_000_000,
            forall|j: int| 0 <= j < i ==> is_digit(#[trigger] s@[j]),
            acc == if digits_value(s@.take(i as int)) > cap {
                cap as nat
            } else {
                digits_value(s@.take(i as int))
            },
        decreases n - i,
    {
        let d: u8 = char_digit_value(s[i]);
        proof {
            assert(s@.take(i + 1).drop_last() =~= s@.take(i as int));
        }
        let next: u128 = acc * 10 + d as u128;
        acc = if next > cap { cap } else { next };
        i += 1;
    }
    let p: usize = i;
    proof {
        lemma_digit_run_step(s@, 0, p as int);
        assert(s@.take(n as int) =~= s@);
    }
    if p == n {
        if p == 0 {
            return None;
        }
        return Some(acc * 1000);
    }
    if s[p] != '.' {
        return None;
    }
    let mut frac: u128 = 0;
    let mut j: usize = p + 1;
    while j < n && char_is_digit(s[j])
        invariant
            p < j <= n == s.len(),
            forall|k: int| p < k < j ==> is_digit(#[trigger] s@[k]),
            frac == fraction_milli(s@.subrange(p + 1, j as int)),
            frac <= 999,
        decreases n - j,
    {
        let d: u8 = char_digit_value(s[j]);
        let k: usize = j - (p + 1);
        if k == 0 {
            frac = frac + 100 * (d as u128);
        } else if k == 1 {
            frac = frac + 10 * (d as u128);
        } else if k == 2 {
            frac = frac + d as u128;
        }
        j += 1;
    }
    proof {
        lemma_digit_run_step(s@, p + 1, j as int);
        assert(s@.subrange(p + 1, n as int) =~= s@.skip(p + 1));
    }
    if j != n || n == 1 {
        return None;
    }
    let whole: u128 = acc * 1000 + frac;
    Some(if whole > NUMERAL_CAP { NUMERAL_CAP } else { whole })
}

/// A numeral's capped value as a quantity.
pub fn quantity_of(m: u128) -> (q: i64)
    ensures
        q == saturated(m as nat),
        0 <= q <= QUANTITY_MAX,
{
    if m > 9_223_372_036_854_775_807 {
        QUANTITY_MAX
    } else {
        m as i64
    }
}

} // verus!
