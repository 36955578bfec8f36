//! Decimal rendering of an integer count of minor units.
//!
//! An amount is rendered exactly, from integers alone: the whole part is the
//! amount divided by the divisor, and the fractional part is produced by
//! decimal long division of the remainder, one digit for each decimal place
//! the divisor calls for, with trailing zeros dropped. For a divisor that is
//! a power of ten this is the exact minimal-digits decimal expansion of
//! `amount / divisor`; for any other divisor the fraction is truncated at
//! that many places.

use vstd::prelude::*;
use vstd::arithmetic::div_mod::{
    lemma_div_pos_is_pos,
    lemma_multiply_divide_lt,
    lemma_remainder_upper,
};

verus! {

/// The character for one decimal digit.
pub open spec fn digit_char(d: int) -> char {
    if d == 0 {
        '0'
    } else if d == 1 {
        '1'
    } else if d == 2 {
        '2'
    } else if d == 3 {
        '3'
    } else if d == 4 {
        '4'
    } else if d == 5 {
        '5'
    } else if d == 6 {
        '6'
    } else if d == 7 {
        '7'
    } else if d == 8 {
        '8'
    } else {
        '9'
    }
}

/// The decimal digits of a nonnegative number, most significant first.
pub open spec fn dec_digits(n: int) -> Seq<char>
    decreases n,
{
    if n < 10 {
        seq![digit_char(n)]
    } else {
        dec_digits(n / 10) + seq![digit_char(n % 10)]
    }
}

/// The first `k` digits after the decimal point of `r / d`, produced by
/// decimal long division: each step scales the running remainder by ten and
/// takes the quotient as the next digit.
pub open spec fn frac_digits(r: int, d: int, k: nat) -> Seq<char>
    decreases k,
{
    if k == 0 {
        Seq::empty()
    } else {
        seq![digit_char((r * 10) / d)] + frac_digits((r * 10) % d, d, (k - 1) as nat)
    }
}

/// The sequence without its trailing `'0'` characters.
pub open spec fn strip_trailing_zeros(s: Seq<char>) -> Seq<char>
    decreases s.len(),
{
    if s.len() > 0 && s.last() == '0' {
        strip_trailing_zeros(s.drop_last())
    } else {
        s
    }
}

/// Ten to the power `k`.
pub open spec fn pow10(k: nat) -> int
    decreases k,
{
    if k == 0 {
        1
    } else {
        10 * pow10((k - 1) as nat)
    }
}

/// The number of decimal places a divisor calls for: the smallest `k` with
/// `pow10(k) >= d`.
pub open spec fn frac_width(d: int) -> nat
    decreases d,
{
    if d <= 1 {
        0
    } else {
        1 + frac_width((d + 9) / 10)
    }
}

/// The text of a nonnegative amount of `n` minor units at divisor `d`: the
/// whole part, then, unless every fractional digit is zero, a point and the
/// fractional digits with trailing zeros dropped.
pub open spec fn magnitude_chars(n: int, d: int) -> Seq<char> {
    let whole = dec_digits(n / d);
    let frac = strip_trailing_zeros(frac_digits(n % d, d, frac_width(d)));
    if frac.len() == 0 {
        whole
    } else {
        whole + seq!['.'] + frac
    }
}

/// The text of a signed amount of `a` minor units at divisor `d`.
pub open spec fn amount_chars(a: int, d: int) -> Seq<char> {
    if a < 0 {
        seq!['-'] + magnitude_chars(a * -1, d)
    } else {
        magnitude_chars(a, d)
    }
}

/// Relies on `String::push`: appends the given character to the string.
#[verifier::external_body]
pub(crate) fn push_char(s: &mut String, c: char)
    ensures
        final(s)@ == old(s)@ + seq![c],
{
    s.push(c);
}

/// The character of one digit.
fn digit_to_char(d: u64) -> (c: char)
    requires
        d < 10,
    ensures
        c == digit_char(d as int),
{
    if d == 0 {
        '0'
    } else if d == 1 {
        '1'
    } else if d == 2 {
        '2'
    } else if d == 3 {
        '3'
    } else if d == 4 {
        '4'
    } else if d == 5 {
        '5'
    } else if d == 6 {
        '6'
    } else if d == 7 {
        '7'
    } else if d == 8 {
        '8'
    } else {
        '9'
    }
}

/// Appends the decimal digits of `n`, most significant first.
fn push_decimal(s: &mut String, n: u64)
    ensures
        final(s)@ == old(s)@ + dec_digits(n as int),
    decreases n,
{
    if n < 10 {
        push_char(s, digit_to_char(n));
    } else {
        push_decimal(s, n / 10);
        push_char(s, digit_to_char(n % 10));
        proof {
            assert(s@ =~= old(s)@ + dec_digits(n as int));
        }
    }
}

/// Upper bound on the width a bounded divisor calls for: ten decimal places
/// cover any divisor up to ten thousand million.
proof fn lemma_frac_width_le(d: int, k: nat)
    requires
        1 <= d <= pow10(k),
    ensures
        frac_width(d) <= k,
    decreases k,
{
    if d > 1 {
        assert(pow10(k) == 10 * pow10((k - 1) as nat));
        lemma_frac_width_le((d + 9) / 10, (k - 1) as nat);
    }
}

/// The number of decimal places the divisor calls for.
fn width_for(d: u64) -> (k: usize)
    requires
        1 <= d <= 0x8000_0000,
    ensures
        k as nat == frac_width(d as int),
        k <= 10,
    decreases d,
{
    proof {
        assert(pow10(10) == 10000000000) by {
            reveal_with_fuel(pow10, 11);
        }
        lemma_frac_width_le(d as int, 10);
    }
    if d <= 1 {
        0
    } else {
        let sub = width_for((d + 9) / 10);
        1 + sub
    }
}

/// The first `k` fractional digits of `rem / d`, by decimal long division.
fn frac_chars(rem: u64, d: u64, k: usize) -> (v: Vec<char>)
    requires
        1 <= d <= 0x8000_0000,
        rem < d,
        k <= 10,
    ensures
        v@ == frac_digits(rem as int, d as int, k as nat),
{
    let mut v: Vec<char> = Vec::new();
    let mut r: u64 = rem;
    let mut i: usize = 0;
    proof {
        assert(v@ + frac_digits(r as int, d as int, k as nat) =~= frac_digits(
            rem as int,
            d as int,
            k as nat,
        ));
    }
    while i < k
        invariant
            i <= k,
            k <= 10,
            r < d,
            1 <= d <= 0x8000_0000,
            v@.len() == i,
            v@ + frac_digits(r as int, d as int, (k - i) as nat) == frac_digits(
                rem as int,
                d as int,
                k as nat,
            ),
        decreases k - i,
    {
        let scaled = r * 10;
        let digit = scaled / d;
        proof {
            lemma_multiply_divide_lt(scaled as int, d as int, 10);
            lemma_div_pos_is_pos(scaled as int, d as int);
            lemma_remainder_upper(scaled as int, d as int);
        }
        r = scaled % d;
        v.push(digit_to_char(digit));
        i = i + 1;
        proof {
            assert(v@ + frac_digits(r as int, d as int, (k - i) as nat) =~= frac_digits(
                rem as int,
                d as int,
                k as nat,
            ));
        }
    }
    v
}

/// Appends the text of a nonnegative amount of `n` minor units at divisor
/// `d`.
pub(crate) fn push_magnitude(s: &mut String, n: u64, d: u64)
    requires
        1 <= d <= 0x8000_0000,
    ensures
        final(s)@ == old(s)@ + magnitude_chars(n as int, d as int),
{
    let ghost start = s@;
    let whole = n / d;
    let rem = n % d;
    proof {
        lemma_remainder_upper(n as int, d as int);
        lemma_div_pos_is_pos(n as int, d as int);
    }
    push_decimal(s, whole);
    let k = width_for(d);
    let mut digits = frac_chars(rem, d, k);
    let ghost full = digits@;
    while digits.len() > 0 && digits[digits.len() - 1] == '0'
        invariant
            strip_trailing_zeros(digits@) == strip_trailing_zeros(full),
        decreases digits.len(),
    {
        digits.pop();
    }
    proof {
        assert(digits@ == strip_trailing_zeros(full));
    }
    if digits.len() > 0 {
        push_char(s, '.');
        let ghost before = s@;
        let mut i: usize = 0;
        proof {
            assert(s@ =~= before + digits@.subrange(0, 0));
        }
        while i < digits.len()
            invariant
                i <= digits@.len(),
                s@ == before + digits@.subrange(0, i as int),
            decreases digits@.len() - i,
        {
            push_char(s, digits[i]);
            i = i + 1;
            proof {
                assert(s@ =~= before + digits@.subrange(0, i as int));
            }
        }
        proof {
            assert(digits@.subrange(0, digits@.len() as int) =~= digits@);
        }
    }
    proof {
        assert(s@ =~= start + magnitude_chars(n as int, d as int));
    }
}

/// Appends the text of a signed amount of `a` minor units at divisor `d`,
/// with a leading minus sign for a negative amount.
pub(crate) fn push_amount(s: &mut String, a: i64, d: u64)
    requires
        1 <= d <= 0x8000_0000,
    ensures
        final(s)@ == old(s)@ + amount_chars(a as int, d as int),
{
    if a >= 0 {
        push_magnitude(s, a as u64, d);
    } else {
        let ghost start = s@;
        push_char(s, '-');
        let wide: i128 = a as i128;
        let mag: u64 = (-wide) as u64;
        proof {
            assert(mag as int == (a as int) * -1);
        }
        push_magnitude(s, mag, d);
        proof {
            assert(s@ =~= start + amount_chars(a as int, d as int));
        }
    }
}

} // verus!
