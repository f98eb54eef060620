//! Fixed-point sample arithmetic: the divisions the pipeline needs, the
//! mapping between raw container integers and fixed-point samples, and the
//! quantization of fixed-point samples to output codes.

use vstd::prelude::*;
use vstd::arithmetic::div_mod::{
    lemma_div_is_ordered, lemma_div_nonincreasing, lemma_div_pos_is_pos,
    lemma_fundamental_div_mod,
};
use vstd::arithmetic::mul::{lemma_mul_is_commutative, lemma_mul_unary_negation};
use crate::{abs_of, FULL_SCALE, MAX_SAMPLE};

verus! {

/// Quotient truncated toward zero, as hardware division computes it, for a
/// positive divisor.
pub open spec fn div_trunc(a: int, b: int) -> int {
    if a >= 0 {
        a / b
    } else {
        -((-a) / b)
    }
}

/// Quotient rounded to the nearest integer, ties away from zero, for a
/// positive divisor.
pub open spec fn div_round(a: int, b: int) -> int {
    if a >= 0 {
        (a + b / 2) / b
    } else {
        -((-a + b / 2) / b)
    }
}

/// `x` forced into the inclusive range `lo ..= hi`.
pub open spec fn clamp_spec(x: int, lo: int, hi: int) -> int {
    if x < lo {
        lo
    } else if x > hi {
        hi
    } else {
        x
    }
}

/// Forces `x` into the inclusive range `lo ..= hi`.
pub fn clamp_i64(x: i64, lo: i64, hi: i64) -> (r: i64)
    requires
        lo <= hi,
    ensures
        r as int == clamp_spec(x as int, lo as int, hi as int),
{
    if x < lo {
        lo
    } else if x > hi {
        hi
    } else {
        x
    }
}

/// Computes `div_trunc(a, b)`.
pub fn div_trunc_i64(a: i64, b: i64) -> (r: i64)
    requires
        1 <= b,
        abs_of(a as int) <= i64::MAX as int,
    ensures
        r as int == div_trunc(a as int, b as int),
        abs_of(r as int) <= abs_of(a as int),
{
    if a >= 0 {
        let q: u64 = (a as u64) / (b as u64);
        proof {
            lemma_div_pos_is_pos(a as int, b as int);
            lemma_div_nonincreasing(a as int, b as int);
        }
        q as i64
    } else {
        let m: u64 = (-a) as u64;
        let q: u64 = m / (b as u64);
        proof {
            lemma_div_pos_is_pos(m as int, b as int);
            lemma_div_nonincreasing(m as int, b as int);
        }
        -(q as i64)
    }
}

/// Computes `div_round(a, b)`.
pub fn div_round_i64(a: i64, b: i64) -> (r: i64)
    requires
        1 <= b,
        abs_of(a as int) + b / 2 <= i64::MAX as int,
    ensures
        r as int == div_round(a as int, b as int),
{
    let h: u64 = (b as u64) / 2;
    if a >= 0 {
        let n: u64 = (a as u64) + h;
        let q: u64 = n / (b as u64);
        proof {
            lemma_div_pos_is_pos(n as int, b as int);
            lemma_div_nonincreasing(n as int, b as int);
        }
        q as i64
    } else {
        let n: u64 = ((-a) as u64) + h;
        let q: u64 = n / (b as u64);
        proof {
            lemma_div_pos_is_pos(n as int, b as int);
            lemma_div_nonincreasing(n as int, b as int);
        }
        -(q as i64)
    }
}

/// The raw sample formats the decoder understands.
pub open spec fn supported_source_bits(bits: u16) -> bool {
    bits == 8 || bits == 16 || bits == 24 || bits == 32
}

/// Magnitude of full scale in a `bits`-bit signed integer format: two to the
/// power `bits - 1`.
pub open spec fn source_full_scale(bits: u16) -> int {
    if bits == 8 {
        128
    } else if bits == 16 {
        32768
    } else if bits == 24 {
        8388608
    } else {
        2147483648
    }
}

/// A raw integer sample lies in the declared range of its format.
pub open spec fn in_source_range(raw: int, bits: u16) -> bool {
    -source_full_scale(bits) <= raw < source_full_scale(bits)
}

/// Fixed-point value of a raw `bits`-bit integer sample:
/// `raw * FULL_SCALE / 2^(bits - 1)`, truncated toward zero.
pub open spec fn decode_int_sample_spec(raw: int, bits: u16) -> int {
    if bits == 8 {
        raw * 131072
    } else if bits == 16 {
        raw * 512
    } else if bits == 24 {
        raw * 2
    } else {
        div_trunc(raw, 128)
    }
}

/// Maps one raw integer sample to fixed point.
pub fn decode_int_sample(raw: i64, bits: u16) -> (s: i64)
    requires
        supported_source_bits(bits),
        in_source_range(raw as int, bits),
    ensures
        s as int == decode_int_sample_spec(raw as int, bits),
        abs_of(s as int) <= FULL_SCALE as int,
{
    if bits == 8 {
        raw * 131072
    } else if bits == 16 {
        raw * 512
    } else if bits == 24 {
        raw * 2
    } else {
        let s = div_trunc_i64(raw, 128);
        proof {
            if raw >= 0 {
                lemma_div_is_ordered(raw as int, 2147483647, 128);
            } else {
                lemma_div_is_ordered(-raw as int, 2147483648, 128);
            }
        }
        s
    }
}

/// Largest positive code of an output format; encoding supports 16 and 24
/// bits.
pub open spec fn quant_limit(bits: u16) -> int {
    if bits == 16 {
        32767
    } else {
        8388607
    }
}

/// Output code of a fixed-point sample: `round(s * quant_limit(bits) /
/// FULL_SCALE)`, clamped to the representable signed range of the format.
pub open spec fn quantize_spec(s: int, bits: u16) -> int {
    clamp_spec(
        div_round(s * quant_limit(bits), FULL_SCALE as int),
        -quant_limit(bits) - 1,
        quant_limit(bits),
    )
}

/// Quantizes one fixed-point sample to an output code.
pub fn quantize_sample(s: i64, bits: u16) -> (q: i32)
    requires
        bits == 16 || bits == 24,
        abs_of(s as int) <= MAX_SAMPLE as int,
    ensures
        q as int == quantize_spec(s as int, bits),
        -quant_limit(bits) - 1 <= q as int <= quant_limit(bits),
{
    let c: i64 = if bits == 16 {
        let q0 = div_round_i64(s * 32767, FULL_SCALE);
        clamp_i64(q0, -32768, 32767)
    } else {
        let q0 = div_round_i64(s * 8388607, FULL_SCALE);
        clamp_i64(q0, -8388608, 8388607)
    };
    c as i32
}

/// The rounded quotient is within half an (even) divisor of the exact
/// rational quotient, scaled back: `|div_round(a, b) * b - a| <= b / 2`.
pub proof fn lemma_div_round_near(a: int, b: int)
    requires
        b >= 2,
        b % 2 == 0,
    ensures
        abs_of(div_round(a, b) * b - a) <= b / 2,
{
    let h = b / 2;
    if a >= 0 {
        let q = (a + h) / b;
        lemma_fundamental_div_mod(a + h, b);
        lemma_mul_is_commutative(q, b);
    } else {
        let m = -a;
        let q = (m + h) / b;
        lemma_fundamental_div_mod(m + h, b);
        lemma_mul_is_commutative(q, b);
        lemma_mul_unary_negation(q, b);
    }
}

/// Quantizing a fixed-point sample at 16 bits and mapping the code back to
/// fixed point moves the sample by at most 768 units of `FULL_SCALE`, that
/// is one and a half quantization steps; within half of full scale the error
/// is at most 512 units, which is below one step (`FULL_SCALE / 32767`).
pub proof fn lemma_quantize16_round_trip(s: int)
    requires
        abs_of(s) <= FULL_SCALE as int,
    ensures
        abs_of(decode_int_sample_spec(quantize_spec(s, 16), 16) - s) <= 768,
        abs_of(s) <= FULL_SCALE as int / 2 ==> abs_of(
            decode_int_sample_spec(quantize_spec(s, 16), 16) - s,
        ) <= 512,
{
    let a = s * 32767;
    let q0 = div_round(a, FULL_SCALE as int);
    lemma_div_round_near(a, FULL_SCALE as int);
    let d = q0 * 16777216 - a;
    assert(abs_of(d) <= 8388608);
    assert(-32768 <= q0 <= 32767);
    assert(quantize_spec(s, 16) == q0);
    let e = q0 * 512 - s;
    assert(16777216 * e == 512 * d - 512 * s);
}

} // verus!
