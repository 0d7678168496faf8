//! From a channel value to a byte of the output image.
//!
//! A channel is clamped to `[0, 0.999]`, scaled by 256 and truncated, which
//! gives an integer in `0..=255`. Scaling by a power of two is exact in
//! binary64, so the byte is the integer part of the significand shifted by the
//! exponent, and is computed here from the encoding.
use vstd::prelude::*;
use vstd::arithmetic::power2::{pow2, lemma_pow2_adds, lemma_pow2_strictly_increases, lemma_pow2_pos};
use crate::scalar::{Scalar, SIGN_BIT, ZERO_BITS, is_nan, le, lt, magnitude};

verus! {

/// `2^52`: the implicit leading bit of a normal significand.
pub const FRACTION_ONE: u64 = 0x0010_0000_0000_0000;

/// Encoding of `0.999`, the largest value a channel is clamped to.
pub const CLAMP_HIGH_BITS: u64 = 0x3FEF_F7CE_D916_872B;

/// The biased exponent field.
pub open spec fn exponent_field(b: u64) -> int {
    magnitude(b) / (FRACTION_ONE as int)
}

/// The significand as an integer: the fraction field, with the leading bit
/// for a normal number.
pub open spec fn significand(b: u64) -> int {
    if exponent_field(b) == 0 {
        magnitude(b) % (FRACTION_ONE as int)
    } else {
        FRACTION_ONE + magnitude(b) % (FRACTION_ONE as int)
    }
}

/// The integer part of 256 times the absolute value of a finite encoding. That
/// value is `significand × 2^(e - 1075)` with `e` the exponent field (1 for
/// subnormals), so 256 times it is `significand × 2^(e - 1067)`.
pub open spec fn floor_times_256(b: u64) -> int {
    let e = if exponent_field(b) == 0 { 1 } else { exponent_field(b) };
    if e <= 1067 {
        significand(b) / (pow2((1067 - e) as nat) as int)
    } else {
        significand(b) * (pow2((e - 1067) as nat) as int)
    }
}

/// The byte of a channel value: 0 for NaN and for values at most zero, that
/// of `0.999` above it, else the integer part of 256 times the value.
pub open spec fn channel_byte_of(b: u64) -> int {
    if is_nan(b) || le(b, ZERO_BITS) {
        0
    } else if lt(CLAMP_HIGH_BITS, b) {
        floor_times_256(CLAMP_HIGH_BITS)
    } else {
        floor_times_256(b)
    }
}

/// `clamp(c, 0, 0.999) * 256`, truncated to an integer.
pub fn channel_byte(c: Scalar) -> (r: u8)
    ensures
        r == channel_byte_of(c.bits),
        lt(CLAMP_HIGH_BITS, c.bits) ==> r == 255,
{
    proof {
        lemma_clamp_high_byte();
    }
    if c.is_nan() || c.le(&Scalar::zero()) {
        return 0;
    }
    let v: u64 = if Scalar::from_bits(CLAMP_HIGH_BITS).lt(&c) {
        CLAMP_HIGH_BITS
    } else {
        c.bits
    };
    assert(!lt(CLAMP_HIGH_BITS, v));
    assert(magnitude(v) <= CLAMP_HIGH_BITS && v < SIGN_BIT);
    let e: u64 = v / FRACTION_ONE;
    let f: u64 = v % FRACTION_ONE;
    assert(e <= 1022);
    let sig: u64 = if e == 0 {
        f
    } else {
        FRACTION_ONE + f
    };
    let shift: u64 = if e == 0 {
        1066
    } else {
        1067 - e
    };
    proof {
        lemma_pow2_adds(45, 8);
        vstd::arithmetic::power2::lemma2_to64();
        vstd::arithmetic::power2::lemma2_to64_rest();
        assert(sig < pow2(53));
        if shift > 45 {
            lemma_pow2_strictly_increases(45, shift as nat);
        }
        lemma_pow2_pos(45);
        assert(sig as int / (pow2(shift as nat) as int) < 256) by (nonlinear_arith)
            requires
                sig < pow2(45) * pow2(8),
                pow2(45) <= pow2(shift as nat),
                pow2(45) > 0,
                pow2(8) == 256,
        ;
    }
    if shift >= 64 {
        proof {
            lemma_pow2_strictly_increases(53, shift as nat);
            vstd::arithmetic::div_mod::lemma_basic_div(sig as int, pow2(shift as nat) as int);
        }
        0
    } else {
        proof {
            vstd::bits::lemma_u64_shr_is_div(sig, shift);
        }
        (sig >> shift) as u8
    }
}

/// A channel clamped from above gives 255.
proof fn lemma_clamp_high_byte()
    ensures
        floor_times_256(CLAMP_HIGH_BITS) == 255,
{
    assert(magnitude(CLAMP_HIGH_BITS) == CLAMP_HIGH_BITS);
    assert(exponent_field(CLAMP_HIGH_BITS) == 1022);
    assert(significand(CLAMP_HIGH_BITS) == 0x1F_F7CE_D916_872B);
    vstd::arithmetic::power2::lemma2_to64_rest();
    assert(pow2(45) == 0x2000_0000_0000);
    assert(0x1F_F7CE_D916_872Bint / 0x2000_0000_0000int == 255) by (nonlinear_arith);
}

} // verus!
