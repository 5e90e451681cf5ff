//! The relevance score as text.
//!
//! A score is a 32-bit binary floating-point number, known here by its bit
//! pattern: one sign bit, eight bits of exponent, twenty-three of fraction.
//! Its text is the number rounded to two decimal places, exactly: to the
//! nearest hundredth, and to the even one of two that are equally near.

use crate::text::{chars_of, decimal, digit, digit_of, push_decimal, push_range};
use vstd::arithmetic::div_mod::{lemma_basic_div, lemma_small_mod};
use vstd::arithmetic::power2::{
    lemma2_to64,
    lemma2_to64_rest,
    lemma_pow2_adds,
    lemma_pow2_pos,
    lemma_pow2_strictly_increases,
    lemma_pow2_unfold,
    pow2,
};
use vstd::prelude::*;

verus! {

/// The sign bit is set.
pub open spec fn is_negative(bits: u32) -> bool {
    bits >= 0x8000_0000
}

/// The eight exponent bits, as a number.
pub open spec fn exponent_field(bits: u32) -> int {
    (bits as int / 0x80_0000) % 0x100
}

/// The twenty-three fraction bits, as a number.
pub open spec fn fraction_field(bits: u32) -> int {
    bits as int % 0x80_0000
}

/// The whole number that the fraction bits stand for: with the implicit
/// leading one, but for zero and the subnormal numbers.
pub open spec fn significand(bits: u32) -> nat {
    if exponent_field(bits) == 0 {
        fraction_field(bits) as nat
    } else {
        (0x80_0000 + fraction_field(bits)) as nat
    }
}

/// The power of two that scales the significand: the magnitude of a finite
/// score is `significand * 2^binary_scale`.
pub open spec fn binary_scale(bits: u32) -> int {
    if exponent_field(bits) == 0 {
        -149
    } else {
        exponent_field(bits) - 150
    }
}

/// `num / den` rounded to the nearest whole number, a tie to the even one.
pub open spec fn rounded_quotient(num: nat, den: nat) -> nat {
    let q = num / den;
    let r = num % den;
    if 2 * r > den || (2 * r == den && q % 2 == 1) {
        q + 1
    } else {
        q
    }
}

/// The magnitude of a finite score in hundredths, rounded.
pub open spec fn hundredths(bits: u32) -> nat {
    let m = significand(bits);
    let e = binary_scale(bits);
    if e >= 0 {
        100 * (m * pow2(e as nat))
    } else {
        rounded_quotient(100 * m, pow2((-e) as nat))
    }
}

/// A number of hundredths written with two decimal places.
pub open spec fn two_decimals(h: nat) -> Seq<char> {
    decimal(h / 100) + seq!['.', digit((h / 10 % 10) as int), digit((h % 10) as int)]
}

/// The score as text: `NaN` for what is no number, `inf` and `-inf` for the
/// infinities, else the sign, where the sign bit is set, and the magnitude
/// with two decimal places.
pub open spec fn score_text(bits: u32) -> Seq<char> {
    if exponent_field(bits) == 255 {
        if fraction_field(bits) != 0 {
            seq!['N', 'a', 'N']
        } else if is_negative(bits) {
            seq!['-', 'i', 'n', 'f']
        } else {
            seq!['i', 'n', 'f']
        }
    } else if is_negative(bits) {
        seq!['-'] + two_decimals(hundredths(bits))
    } else {
        two_decimals(hundredths(bits))
    }
}

/// `s` with spaces before it, as many as it lacks to `width` characters.
pub open spec fn padded(s: Seq<char>, width: nat) -> Seq<char> {
    if s.len() >= width {
        s
    } else {
        Seq::new((width - s.len()) as nat, |i: int| ' ') + s
    }
}

/// The score as shown in a line: its text, right-aligned in five
/// characters.
pub open spec fn score_field(bits: u32) -> Seq<char> {
    padded(score_text(bits), 5)
}

/// Two to the power `k`.
fn power_of_two(k: u32) -> (p: u128)
    requires
        k <= 104,
    ensures
        p == pow2(k as nat),
        p <= 0x1_00_0000_0000_0000_0000_0000_0000,
{
    let mut p: u128 = 1;
    let mut i: u32 = 0;
    proof {
        lemma2_to64();
        lemma2_to64_rest();
        lemma_pow2_adds(64, 40);
        assert(pow2(64) == 0x1_0000_0000_0000_0000);
        assert(pow2(40) == 0x100_0000_0000);
        assert(0x1_0000_0000_0000_0000 * 0x100_0000_0000
            == 0x1_00_0000_0000_0000_0000_0000_0000int);
    }
    while i < k
        invariant
            i <= k <= 104,
            p == pow2(i as nat),
            pow2(104) == 0x1_00_0000_0000_0000_0000_0000_0000,
        decreases k - i,
    {
        proof {
            lemma_pow2_unfold((i + 1) as nat);
            if i + 1 < 104 {
                lemma_pow2_strictly_increases((i + 1) as nat, 104);
            }
        }
        p = p * 2;
        i += 1;
    }
    proof {
        if k < 104 {
            lemma_pow2_strictly_increases(k as nat, 104);
        }
    }
    p
}

/// The magnitude of the finite score `bits` in hundredths, split into the
/// whole part and the two decimal digits.
fn magnitude_parts(bits: u32) -> (parts: (u128, u8, u8))
    requires
        exponent_field(bits) != 255,
    ensures
        parts.0 == hundredths(bits) / 100,
        parts.1 == hundredths(bits) / 10 % 10,
        parts.2 == hundredths(bits) % 10,
{
    let exponent: u32 = (bits / 0x80_0000) % 0x100;
    let fraction: u32 = bits % 0x80_0000;
    let m: u128 = if exponent == 0 {
        fraction as u128
    } else {
        0x80_0000 + fraction as u128
    };
    assert(m == significand(bits));
    if exponent >= 150 {
        let p = power_of_two(exponent - 150);
        assert(m * p < 0x1_0000_0000_0000_0000_0000_0000_0000_0000) by (nonlinear_arith)
            requires
                m < 0x100_0000,
                p <= 0x1_00_0000_0000_0000_0000_0000_0000,
        ;
        let whole: u128 = m * p;
        assert(hundredths(bits) == 100 * whole);
        (whole, 0, 0)
    } else {
        let k: u32 = if exponent == 0 {
            149
        } else {
            150 - exponent
        };
        assert(k as int == -binary_scale(bits));
        let n: u128 = 100 * m;
        let h: u128 = if k >= 32 {
            proof {
                lemma2_to64();
                if k > 32 {
                    lemma_pow2_strictly_increases(32, k as nat);
                }
                lemma_basic_div(n as int, pow2(k as nat) as int);
                lemma_small_mod(n as nat, pow2(k as nat));
            }
            0
        } else {
            let den = power_of_two(k);
            proof {
                lemma_pow2_pos(k as nat);
            }
            let q: u128 = n / den;
            let r: u128 = n % den;
            if 2 * r > den || (2 * r == den && q % 2 == 1) {
                q + 1
            } else {
                q
            }
        };
        assert(h == hundredths(bits));
        (h / 100, (h / 10 % 10) as u8, (h % 10) as u8)
    }
}

/// The score with the bit pattern `bits`, rounded to two decimal places and
/// right-aligned in five characters.
pub fn render_score(bits: u32) -> (r: String)
    ensures
        r@ == score_field(bits),
{
    let negative = bits >= 0x8000_0000;
    let exponent: u32 = (bits / 0x80_0000) % 0x100;
    let fraction: u32 = bits % 0x80_0000;
    let mut body = String::new();
    if exponent == 255 {
        if fraction != 0 {
            body.push('N');
            body.push('a');
            body.push('N');
        } else {
            if negative {
                body.push('-');
            }
            body.push('i');
            body.push('n');
            body.push('f');
        }
        assert(body@ == score_text(bits));
    } else {
        if negative {
            body.push('-');
        }
        let ghost sign = body@;
        let parts = magnitude_parts(bits);
        push_decimal(&mut body, parts.0);
        body.push('.');
        body.push(digit_of(parts.1));
        body.push(digit_of(parts.2));
        assert(body@ == sign + two_decimals(hundredths(bits)));
        assert(Seq::<char>::empty() + two_decimals(hundredths(bits)) == two_decimals(
            hundredths(bits),
        ));
        assert(Seq::<char>::empty().push('-') == seq!['-']);
        assert(body@ == score_text(bits));
    }
    let chars = chars_of(body.as_str());
    let mut r = String::new();
    let mut width: usize = chars.len();
    while width < 5
        invariant
            chars.len() <= width,
            chars.len() >= 5 ==> r@.len() == 0,
            chars.len() < 5 ==> width <= 5 && r@ == Seq::new(
                (width - chars.len()) as nat,
                |i: int| ' ',
            ),
        decreases 5 - width,
    {
        r.push(' ');
        width += 1;
    }
    push_range(&mut r, &chars, 0, chars.len());
    assert(chars@.subrange(0, chars@.len() as int) == chars@);
    assert(Seq::<char>::empty() + chars@ == chars@);
    r
}

} // verus!
