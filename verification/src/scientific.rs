//! Quantities as sensors report them: a decimal numeral with an optional
//! sign and an optional power of ten, such as `12.5`, `-3` or `1.5e-3`.

use crate::decimal::{
    capped, char_digit_value, char_is_digit, digit_run_end, digit_value, digits_value,
    fraction_milli, is_digit, lemma_digit_run_step, numeral_digits, numeral_milli, parse_numeral,
    quantity_of, saturated, NUMERAL_CAP, QUANTITY_MAX,
};
use crate::text::slice_chars;
use vstd::arithmetic::div_mod::{lemma_basic_div, lemma_div_denominator};
use vstd::prelude::*;

verus! {

/// Ten to the power of `n`.
pub open spec fn pow10(n: nat) -> nat
    decreases n,
{
    if n == 0 {
        1
    } else {
        10 * pow10((n - 1) as nat)
    }
}

/// `d` times ten to the power of `shift`, rounded down.
pub open spec fn shifted(d: nat, shift: int) -> nat {
    if shift >= 0 {
        d * pow10(shift as nat)
    } else {
        d / pow10((-shift) as nat)
    }
}

/// Whether every character of `s` is a digit.
pub open spec fn all_digits(s: Seq<char>) -> bool {
    forall|i: int| 0 <= i < s.len() ==> is_digit(#[trigger] s[i])
}

/// Whether `c` introduces the power of ten.
pub open spec fn is_exponent_mark(c: char) -> bool {
    c == 'e' || c == 'E'
}

/// Index of the first exponent mark at or after `from`, or the length of
/// `s` when there is none.
pub open spec fn mantissa_end(s: Seq<char>, from: int) -> int
    decreases s.len() - from,
{
    if 0 <= from < s.len() && !is_exponent_mark(s[from]) {
        mantissa_end(s, from + 1)
    } else {
        from
    }
}

/// The power of ten that `s` writes: an optional sign and at least one
/// digit; `None` for anything else.
pub open spec fn exponent_value(s: Seq<char>) -> Option<int> {
    let signed = s.len() > 0 && (s[0] == '-' || s[0] == '+');
    let digits = if signed {
        s.skip(1)
    } else {
        s
    };
    if digits.len() > 0 && all_digits(digits) {
        Some(
            if signed && s[0] == '-' {
                -(digits_value(digits) as int)
            } else {
                digits_value(digits) as int
            },
        )
    } else {
        None
    }
}

/// The value in thousandths, rounded down, of the unsigned numeral `s`
/// with its optional power of ten: the number that all its digits write,
/// shifted by the power and by the place of the point. `None` when `s` is
/// no such numeral.
pub open spec fn scientific_milli(s: Seq<char>) -> Option<nat> {
    let p = mantissa_end(s, 0);
    let power = if p == s.len() {
        Some(0int)
    } else {
        exponent_value(s.skip(p + 1))
    };
    match (numeral_digits(s.take(p)), power) {
        (Some((whole, fraction)), Some(e)) => Some(
            shifted(digits_value(whole + fraction), 3 - fraction.len() + e),
        ),
        _ => None,
    }
}

/// The quantity that `s` writes, in thousandths: an optional sign, then a
/// numeral with an optional power of ten. The magnitude is rounded down and
/// saturates at [`QUANTITY_MAX`]. `None` when `s` is no such text.
pub open spec fn quantity_milli(s: Seq<char>) -> Option<int> {
    if s.len() > 0 && (s[0] == '-' || s[0] == '+') {
        match scientific_milli(s.skip(1)) {
            Some(m) => Some(
                if s[0] == '-' {
                    -saturated(m)
                } else {
                    saturated(m)
                },
            ),
            None => None,
        }
    } else {
        match scientific_milli(s) {
            Some(m) => Some(saturated(m)),
            None => None,
        }
    }
}

/// Powers of ten are positive and grow with the exponent.
pub(crate) proof fn lemma_pow10_grows(a: nat, b: nat)
    requires
        a <= b,
    ensures
        1 <= pow10(a) <= pow10(b),
    decreases b,
{
    if a < b {
        lemma_pow10_grows(a, (b - 1) as nat);
    } else if a > 0 {
        lemma_pow10_grows((a - 1) as nat, (a - 1) as nat);
    }
}

/// Ten to the power of 23 is the bound at which numerals stop being tracked.
proof fn lemma_pow10_cap()
    ensures
        pow10(23) == NUMERAL_CAP,
{
    reveal_with_fuel(pow10, 24);
}

/// A run of `n` digits writes a number below ten to the power of `n`.
pub(crate) proof fn lemma_digits_below_pow10(s: Seq<char>)
    requires
        all_digits(s),
    ensures
        digits_value(s) < pow10(s.len()),
    decreases s.len(),
{
    if s.len() > 0 {
        let front = s.drop_last();
        assert(all_digits(front)) by {
            assert forall|i: int| 0 <= i < front.len() implies is_digit(#[trigger] front[i]) by {
                assert(front[i] == s[i]);
            }
        }
        lemma_digits_below_pow10(front);
        assert(is_digit(s[s.len() - 1]));
    }
}

/// The first `m` digits of a run write the number of the whole run divided
/// by ten for every digit left out.
proof fn lemma_digits_prefix(s: Seq<char>, m: int)
    requires
        all_digits(s),
        0 <= m <= s.len(),
    ensures
        digits_value(s.take(m)) == digits_value(s) / pow10((s.len() - m) as nat),
    decreases s.len() - m,
{
    if m == s.len() {
        assert(s.take(m) =~= s);
        assert((s.len() - m) as nat == 0);
        assert(pow10(0) == 1);
        assert(digits_value(s) / 1 == digits_value(s));
    } else {
        lemma_digits_prefix(s, m + 1);
        let longer = s.take(m + 1);
        assert(longer.drop_last() =~= s.take(m));
        assert(is_digit(s[m]));
        assert(longer.last() == s[m]);
        let rest = (s.len() - m - 1) as nat;
        lemma_pow10_grows(rest, rest);
        let whole = digits_value(s) as int;
        let p = pow10(rest) as int;
        lemma_div_denominator(whole, p, 10);
        assert(digits_value(longer) as int == whole / p);
        assert(digits_value(longer) == digits_value(s.take(m)) * 10 + digit_value(s[m]));
        assert(digits_value(s.take(m)) as int == (whole / p) / 10);
        assert(p * 10 == pow10((s.len() - m) as nat) as int);
        assert(digits_value(s.take(m)) as int == whole / (p * 10));
    }
}

/// Up to three digits, padded with zeros to three, write their number of
/// thousandths.
proof fn lemma_short_fraction(f: Seq<char>)
    requires
        f.len() <= 3,
    ensures
        digits_value(f) * pow10((3 - f.len()) as nat) == fraction_milli(f),
        pow10(f.len()) * pow10((3 - f.len()) as nat) == 1000,
{
    reveal_with_fuel(pow10, 4);
    assert(pow10(0) == 1 && pow10(1) == 10 && pow10(2) == 100 && pow10(3) == 1000);
    let empty = Seq::<char>::empty();
    assert(digits_value(empty) == 0);
    let d = digits_value(f) as int;
    let p = pow10(f.len()) as int;
    let q = pow10((3 - f.len()) as nat) as int;
    if f.len() == 0 {
        assert(f =~= empty);
        assert(d * q == 0 && p * q == 1000) by (nonlinear_arith)
            requires
                d == 0,
                p == 1,
                q == 1000,
        ;
    } else if f.len() == 1 {
        assert(f.drop_last() =~= empty);
        assert(d == digit_value(f[0]));
        assert(d * q == d * 100 && p * q == 1000) by (nonlinear_arith)
            requires
                p == 10,
                q == 100,
        ;
    } else if f.len() == 2 {
        let one = f.drop_last();
        assert(one.drop_last() =~= empty);
        assert(digits_value(one) == digit_value(f[0]));
        assert(d == digit_value(f[0]) * 10 + digit_value(f[1]));
        assert(d * q == d * 10 && p * q == 1000) by (nonlinear_arith)
            requires
                p == 100,
                q == 10,
        ;
    } else {
        let two = f.drop_last();
        let one = two.drop_last();
        assert(one.drop_last() =~= empty);
        assert(digits_value(one) == digit_value(f[0]));
        assert(digits_value(two) == digit_value(f[0]) * 10 + digit_value(f[1]));
        assert(d == (digit_value(f[0]) * 10 + digit_value(f[1])) * 10 + digit_value(f[2]));
        assert(d * q == d && p * q == 1000) by (nonlinear_arith)
            requires
                p == 1000,
                q == 1,
        ;
    }
}

/// Without a power of ten the scientific value is the numeral's own: its
/// whole part in thousandths and the first three digits after the point.
proof fn lemma_shift_of_plain_numeral(whole: Seq<char>, fraction: Seq<char>)
    requires
        all_digits(whole),
        all_digits(fraction),
    ensures
        shifted(digits_value(whole + fraction), 3 - fraction.len()) == digits_value(whole) * 1000
            + fraction_milli(fraction),
{
    let all = whole + fraction;
    let k = fraction.len();
    let a = digits_value(whole) as int;
    assert(all_digits(all));
    if k <= 3 {
        lemma_digits_append(whole, fraction);
        lemma_short_fraction(fraction);
        let b = digits_value(fraction) as int;
        let p = pow10(k) as int;
        let q = pow10((3 - k) as nat) as int;
        assert((a * p + b) * q == a * 1000 + b * q) by (nonlinear_arith)
            requires
                p * q == 1000,
        ;
        assert(shifted(digits_value(all), 3 - k) == digits_value(all) * pow10((3 - k) as nat));
    } else {
        lemma_digits_prefix(all, (whole.len() + 3) as int);
        let kept = all.take((whole.len() + 3) as int);
        let head = fraction.take(3);
        assert(kept =~= whole + head);
        lemma_digits_append(whole, head);
        lemma_short_fraction(head);
        let h = digits_value(head) as int;
        reveal_with_fuel(pow10, 4);
        assert(pow10(0) == 1 && pow10(3) == 1000);
        assert(h * pow10(0) == h && a * pow10(3) == a * 1000) by (nonlinear_arith)
            requires
                pow10(0) == 1,
                pow10(3) == 1000,
        ;
        assert(fraction_milli(head) == fraction_milli(fraction));
        assert((all.len() - (whole.len() + 3)) as nat == (k - 3) as nat);
        assert(shifted(digits_value(all), 3 - k) == digits_value(all) / pow10((k - 3) as nat));
    }
}

/// Everything from `from` to the end of the digit run that starts there is
/// a digit.
proof fn lemma_digit_run_holds_digits(s: Seq<char>, from: int)
    requires
        0 <= from <= s.len(),
    ensures
        from <= digit_run_end(s, from) <= s.len(),
        forall|j: int| from <= j < digit_run_end(s, from) ==> is_digit(#[trigger] s[j]),
    decreases s.len() - from,
{
    if from < s.len() && is_digit(s[from]) {
        lemma_digit_run_holds_digits(s, from + 1);
    }
}

/// A numeral without a power of ten has the value that its own grammar
/// gives it: the parts before and after the point are runs of digits, and
/// shifting all digits by the place of the point gives the whole part in
/// thousandths plus the first three digits after the point.
pub proof fn lemma_plain_numeral(s: Seq<char>)
    ensures
        match numeral_digits(s) {
            Some((whole, fraction)) => all_digits(whole) && all_digits(fraction) && numeral_milli(s)
                == Some(shifted(digits_value(whole + fraction), 3 - fraction.len())),
            None => numeral_milli(s) is None,
        },
{
    if let Some((whole, fraction)) = numeral_digits(s) {
        let p = digit_run_end(s, 0);
        lemma_digit_run_holds_digits(s, 0);
        if p < s.len() {
            lemma_digit_run_holds_digits(s, p + 1);
            assert(all_digits(fraction)) by {
                assert forall|i: int| 0 <= i < fraction.len() implies is_digit(
                    #[trigger] fraction[i],
                ) by {
                    assert(fraction[i] == s[p + 1 + i]);
                }
            }
        }
        assert(all_digits(whole));
        lemma_shift_of_plain_numeral(whole, fraction);
    }
}

/// A run of digits followed by another writes the first number shifted by
/// the length of the second, plus the second.
pub(crate) proof fn lemma_digits_append(a: Seq<char>, b: Seq<char>)
    ensures
        digits_value(a + b) == digits_value(a) * pow10(b.len()) + digits_value(b),
    decreases b.len(),
{
    let x = digits_value(a) as int;
    if b.len() == 0 {
        assert(a + b =~= a);
        assert(pow10(0) == 1);
        assert(x * pow10(b.len()) == x) by (nonlinear_arith)
            requires
                pow10(b.len()) == 1,
        ;
    } else {
        let front = b.drop_last();
        assert((a + b).drop_last() =~= a + front);
        assert((a + b).last() == b.last());
        lemma_digits_append(a, front);
        let p = pow10(front.len()) as int;
        let y = digits_value(front) as int;
        assert(pow10(b.len()) == 10 * p);
        assert((x * p + y) * 10 == x * (10 * p) + y * 10) by (nonlinear_arith);
    }
}

/// Bound at which a power of ten stops being tracked: beyond it every
/// value is zero or saturated.
pub const EXPONENT_CAP: i128 = 1_000_000_000_000_000_000_000_000_000_000;

/// `e` held between `-EXPONENT_CAP` and `EXPONENT_CAP`.
pub open spec fn held_exponent(e: int) -> int {
    if e > EXPONENT_CAP {
        EXPONENT_CAP as int
    } else if e < -EXPONENT_CAP {
        -EXPONENT_CAP
    } else {
        e
    }
}

/// From a position before any exponent mark the mantissa ends where it
/// ends from the start.
proof fn lemma_mantissa_end_step(s: Seq<char>, from: int, i: int)
    requires
        0 <= from <= i <= s.len(),
        forall|j: int| from <= j < i ==> !is_exponent_mark(#[trigger] s[j]),
    ensures
        mantissa_end(s, from) == mantissa_end(s, i),
    decreases i - from,
{
    if from < i {
        lemma_mantissa_end_step(s, from + 1, i);
    }
}

/// Shifted up by 23 places or more, a number is zero or beyond the bound
/// at which numerals stop being tracked.
proof fn lemma_large_shift(d: nat, shift: int)
    requires
        shift >= 23,
    ensures
        capped(shifted(d, shift)) == if d == 0 {
            0
        } else {
            NUMERAL_CAP as nat
        },
{
    lemma_pow10_grows(23, shift as nat);
    lemma_pow10_cap();
    let p = pow10(shift as nat) as int;
    if d == 0 {
        assert(d * p == 0) by (nonlinear_arith)
            requires
                d == 0,
        ;
    } else {
        assert(d * p >= p) by (nonlinear_arith)
            requires
                d >= 1,
                p >= 0,
        ;
    }
}

/// Shifted down by as many places as it has digits, or more, a number is
/// zero.
proof fn lemma_small_shift(d: nat, n: nat, shift: int)
    requires
        d < pow10(n),
        shift <= -n,
        shift < 0,
    ensures
        shifted(d, shift) == 0,
{
    lemma_pow10_grows(n, (-shift) as nat);
    lemma_basic_div(d as int, pow10((-shift) as nat) as int);
}

/// A power of ten beyond the exponent bound gives what the bound gives:
/// zero or a saturated value.
proof fn lemma_far_exponent(d: nat, n: nat, k: nat, e: int)
    requires
        d < pow10(n),
        k <= n <= 0x1_0000_0000_0000_0000,
    ensures
        capped(shifted(d, 3 - k + e)) == capped(shifted(d, 3 - k + held_exponent(e))),
{
    if e > EXPONENT_CAP {
        lemma_large_shift(d, 3 - k + e);
        lemma_large_shift(d, 3 - k + held_exponent(e));
    } else if e < -EXPONENT_CAP {
        lemma_small_shift(d, n, 3 - k + e);
        lemma_small_shift(d, n, 3 - k + held_exponent(e));
    }
}

/// The number that the first `m` digits of `ds` write, held to `cap`.
pub(crate) fn digits_capped(ds: &Vec<char>, m: usize, cap: u128) -> (r: u128)
    requires
        m <= ds.len(),
        all_digits(ds@),
        cap <= 1_000_000_000_000_000_000_000_000_000_000,
    ensures
        r == if digits_value(ds@.take(m as int)) > cap {
            cap as nat
        } else {
            digits_value(ds@.take(m as int))
        },
{
    let mut acc: u128 = 0;
    let mut i: usize = 0;
    while i < m
        invariant
            i <= m <= ds.len(),
            all_digits(ds@),
            cap <= 1_000_000_000_000_000_000_000_000_000_000,
            acc == if digits_value(ds@.take(i as int)) > cap {
                cap as nat
            } else {
                digits_value(ds@.take(i as int))
            },
        decreases m - i,
    {
        assert(is_digit(ds@[i as int]));
        let d: u8 = char_digit_value(ds[i]);
        proof {
            assert(ds@.take(i + 1).drop_last() =~= ds@.take(i as int));
        }
        let next: u128 = acc * 10 + d as u128;
        acc = if next > cap {
            cap
        } else {
            next
        };
        i += 1;
    }
    acc
}

/// Splits the unsigned numeral `s` into the digits before and after its
/// point.
pub fn split_numeral(s: &Vec<char>) -> (r: Option<(Vec<char>, Vec<char>)>)
    ensures
        match (r, numeral_digits(s@)) {
            (Some((whole, fraction)), Some((w, f))) => whole@ == w && fraction@ == f
                && all_digits(w) && all_digits(f),
            (None, None) => true,
            _ => false,
        },
{
    let n: usize = s.len();
    let mut p: usize = 0;
    while p < n && char_is_digit(s[p])
        invariant
            p <= n == s.len(),
            forall|j: int| 0 <= j < p ==> is_digit(#[trigger] s@[j]),
        decreases n - p,
    {
        p += 1;
    }
    proof {
        lemma_digit_run_step(s@, 0, p as int);
    }
    if p == n {
        if p == 0 {
            return None;
        }
        let whole = slice_chars(s, 0, n);
        assert(whole@ =~= s@);
        return Some((whole, Vec::new()));
    }
    if s[p] != '.' {
        return None;
    }
    let mut q: usize = p + 1;
    while q < n && char_is_digit(s[q])
        invariant
            p < q <= n == s.len(),
            forall|j: int| p < j < q ==> is_digit(#[trigger] s@[j]),
        decreases n - q,
    {
        q += 1;
    }
    proof {
        lemma_digit_run_step(s@, p + 1, q as int);
    }
    if q != n || n == 1 {
        return None;
    }
    let whole = slice_chars(s, 0, p);
    let fraction = slice_chars(s, p + 1, n);
    assert(whole@ =~= s@.take(p as int));
    assert(fraction@ =~= s@.skip(p + 1));
    Some((whole, fraction))
}

/// Reads a power of ten: an optional sign and at least one digit. The
/// result is held to [`EXPONENT_CAP`].
pub fn parse_exponent(s: &Vec<char>) -> (r: Option<i128>)
    ensures
        r == match exponent_value(s@) {
            Some(e) => Some(held_exponent(e) as i128),
            None => None,
        },
{
    let signed: bool = s.len() > 0 && (s[0] == '-' || s[0] == '+');
    let digits = if signed {
        slice_chars(s, 1, s.len())
    } else {
        slice_chars(s, 0, s.len())
    };
    proof {
        if signed {
            assert(digits@ =~= s@.skip(1));
        } else {
            assert(digits@ =~= s@);
        }
    }
    let n: usize = digits.len();
    if n == 0 {
        return None;
    }
    let mut i: usize = 0;
    while i < n
        invariant
            i <= n == digits.len(),
            signed == (s@.len() > 0 && (s@[0] == '-' || s@[0] == '+')),
            digits@ == if signed {
                s@.skip(1)
            } else {
                s@
            },
            forall|j: int| 0 <= j < i ==> is_digit(#[trigger] digits@[j]),
        decreases n - i,
    {
        if !char_is_digit(digits[i]) {
            assert(!is_digit(digits@[i as int]));
            return None;
        }
        i += 1;
    }
    let magnitude: u128 = digits_capped(&digits, n, 1_000_000_000_000_000_000_000_000_000_000);
    assert(digits@.take(n as int) =~= digits@);
    if signed && s[0] == '-' {
        Some(-(magnitude as i128))
    } else {
        Some(magnitude as i128)
    }
}

/// The number that the digits `ds` write, times ten to the power of
/// `shift`, rounded down and held to [`NUMERAL_CAP`].
fn scale(ds: &Vec<char>, shift: i128) -> (r: u128)
    requires
        all_digits(ds@),
        -0x4000_0000_0000_0000_0000_0000_0000_0000 < shift,
    ensures
        r == capped(shifted(digits_value(ds@), shift as int)),
{
    let n: usize = ds.len();
    let ghost d = digits_value(ds@);
    if shift >= 0 {
        let mut acc: u128 = digits_capped(ds, n, NUMERAL_CAP);
        let mut t: i128 = 0;
        proof {
            assert(ds@.take(n as int) =~= ds@);
            assert(pow10(0) == 1);
            assert(d * pow10(0) == d) by (nonlinear_arith)
                requires
                    pow10(0) == 1,
            ;
        }
        while t < shift && acc != 0 && acc < NUMERAL_CAP
            invariant
                0 <= t <= shift,
                acc == capped(d * pow10(t as nat)),
            decreases shift - t,
        {
            proof {
                let p = pow10(t as nat) as int;
                assert(pow10((t + 1) as nat) == 10 * p);
                assert(d * (10 * p) == d * p * 10) by (nonlinear_arith);
            }
            let next: u128 = acc * 10;
            acc = if next > NUMERAL_CAP {
                NUMERAL_CAP
            } else {
                next
            };
            t = t + 1;
        }
        proof {
            if t < shift {
                let low = pow10(t as nat) as int;
                let high = pow10(shift as nat) as int;
                lemma_pow10_grows(t as nat, shift as nat);
                if acc == 0 {
                    assert(d == 0) by (nonlinear_arith)
                        requires
                            d * low == 0,
                            low >= 1,
                            d >= 0,
                    ;
                    assert(d * high == 0) by (nonlinear_arith)
                        requires
                            d == 0,
                    ;
                } else {
                    assert(d * high >= d * low) by (nonlinear_arith)
                        requires
                            high >= low,
                            d >= 0,
                    ;
                }
            }
        }
        acc
    } else {
        let dropped: i128 = -shift;
        proof {
            lemma_digits_below_pow10(ds@);
        }
        if dropped >= n as i128 {
            proof {
                lemma_small_shift(d, n as nat, shift as int);
            }
            0
        } else {
            let kept: usize = n - dropped as usize;
            proof {
                lemma_digits_prefix(ds@, kept as int);
            }
            digits_capped(ds, kept, NUMERAL_CAP)
        }
    }
}

/// Reads the unsigned numeral `s` with its optional power of ten: its
/// value in thousandths, held to [`NUMERAL_CAP`].
pub fn parse_scientific(s: &Vec<char>) -> (r: Option<u128>)
    ensures
        r == match scientific_milli(s@) {
            Some(m) => Some(capped(m) as u128),
            None => None,
        },
{
    let n: usize = s.len();
    let mut p: usize = 0;
    while p < n && s[p] != 'e' && s[p] != 'E'
        invariant
            p <= n == s.len(),
            forall|j: int| 0 <= j < p ==> !is_exponent_mark(#[trigger] s@[j]),
        decreases n - p,
    {
        p += 1;
    }
    proof {
        lemma_mantissa_end_step(s@, 0, p as int);
    }
    if p == n {
        proof {
            assert(s@.take(n as int) =~= s@);
            lemma_plain_numeral(s@);
        }
        return parse_numeral(s);
    }
    let mantissa = slice_chars(s, 0, p);
    let power = slice_chars(s, p + 1, n);
    assert(mantissa@ =~= s@.take(p as int));
    assert(power@ =~= s@.skip(p + 1));
    let (whole, fraction) = match split_numeral(&mantissa) {
        Some(parts) => parts,
        None => {
            return None;
        },
    };
    let e: i128 = match parse_exponent(&power) {
        Some(e) => e,
        None => {
            return None;
        },
    };
    let k: usize = fraction.len();
    let mut digits: Vec<char> = whole;
    let ghost w = digits@;
    let mut i: usize = 0;
    while i < k
        invariant
            i <= k == fraction.len(),
            digits@ == w + fraction@.take(i as int),
        decreases k - i,
    {
        digits.push(fraction[i]);
        assert(w + fraction@.take(i + 1) =~= (w + fraction@.take(i as int)).push(
            fraction@[i as int],
        ));
        i += 1;
    }
    proof {
        assert(fraction@.take(k as int) =~= fraction@);
        assert(all_digits(digits@));
        lemma_digits_below_pow10(digits@);
        lemma_far_exponent(
            digits_value(digits@),
            digits@.len(),
            k as nat,
            exponent_value(power@)->0,
        );
    }
    let shift: i128 = 3 - (k as i128) + e;
    Some(scale(&digits, shift))
}

/// Reads a quantity: an optional sign, then a numeral with an optional
/// power of ten.
pub fn parse_quantity(s: &Vec<char>) -> (r: Option<i64>)
    ensures
        r == match quantity_milli(s@) {
            Some(v) => Some(v as i64),
            None => None,
        },
        r is Some ==> -QUANTITY_MAX <= r->0 <= QUANTITY_MAX,
{
    if s.len() > 0 && (s[0] == '-' || s[0] == '+') {
        let tail = slice_chars(s, 1, s.len());
        assert(tail@ =~= s@.skip(1));
        match parse_scientific(&tail) {
            Some(m) => {
                let q: i64 = quantity_of(m);
                Some(if s[0] == '-' {
                    -q
                } else {
                    q
                })
            },
            None => None,
        }
    } else {
        match parse_scientific(s) {
            Some(m) => Some(quantity_of(m)),
            None => None,
        }
    }
}

} // verus!
