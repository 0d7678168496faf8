//! A binary64 value held as its IEEE-754 encoding.
//!
//! An encoding is a sign bit followed by a 63-bit magnitude. For every value
//! that is not NaN, a larger magnitude is a value further from zero, so the
//! order of values is fixed by sign and magnitude alone. That lets the
//! comparisons of the renderer be stated and computed on integers.
use vstd::prelude::*;

verus! {

/// The sign bit of an encoding.
pub const SIGN_BIT: u64 = 0x8000_0000_0000_0000;

/// Encoding of positive infinity; magnitudes above it are NaN.
pub const INFINITY_BITS: u64 = 0x7FF0_0000_0000_0000;

/// Encoding of `+0.0`.
pub const ZERO_BITS: u64 = 0;

/// Encoding of `1.0`.
pub const ONE_BITS: u64 = 0x3FF0_0000_0000_0000;

/// A binary64 number, as the 64 bits of its encoding.
#[derive(Clone, Copy, Debug)]
pub struct Scalar {
    pub bits: u64,
}

/// Whether the sign bit is set.
pub open spec fn sign_set(b: u64) -> bool {
    b >= SIGN_BIT
}

/// The encoding without its sign bit.
pub open spec fn magnitude(b: u64) -> int {
    b as int % (SIGN_BIT as int)
}

pub open spec fn is_nan(b: u64) -> bool {
    magnitude(b) > INFINITY_BITS
}

/// Neither NaN nor infinite.
pub open spec fn is_finite(b: u64) -> bool {
    magnitude(b) < INFINITY_BITS
}

pub open spec fn is_zero(b: u64) -> bool {
    magnitude(b) == 0
}

/// Position of a non-NaN value in the order of values: negatives below
/// `SIGN_BIT`, further from zero the lower; the rest from `SIGN_BIT` up.
pub open spec fn order_key(b: u64) -> int {
    if sign_set(b) {
        SIGN_BIT - 1 - magnitude(b)
    } else {
        SIGN_BIT + magnitude(b)
    }
}

/// `a < b` on binary64 values: false when either is NaN, and `-0.0` and
/// `+0.0` are equal.
pub open spec fn lt(a: u64, b: u64) -> bool {
    &&& !is_nan(a)
    &&& !is_nan(b)
    &&& !(is_zero(a) && is_zero(b))
    &&& order_key(a) < order_key(b)
}

/// `a <= b` on binary64 values: false when either is NaN.
pub open spec fn le(a: u64, b: u64) -> bool {
    !is_nan(a) && !is_nan(b) && !lt(b, a)
}

/// The encoding of `-x`: the same magnitude under the other sign.
pub open spec fn negated(b: u64) -> u64 {
    if sign_set(b) {
        (b - SIGN_BIT) as u64
    } else {
        (b + SIGN_BIT) as u64
    }
}

impl Scalar {
    pub fn from_bits(bits: u64) -> (r: Scalar)
        ensures
            r.bits == bits,
    {
        Scalar { bits }
    }

    pub fn zero() -> (r: Scalar)
        ensures
            r.bits == ZERO_BITS,
    {
        Scalar { bits: ZERO_BITS }
    }

    pub fn one() -> (r: Scalar)
        ensures
            r.bits == ONE_BITS,
    {
        Scalar { bits: ONE_BITS }
    }

    fn magnitude(&self) -> (r: u64)
        ensures
            r == magnitude(self.bits),
            r < SIGN_BIT,
    {
        self.bits % SIGN_BIT
    }

    pub fn is_nan(&self) -> (r: bool)
        ensures
            r == is_nan(self.bits),
    {
        self.magnitude() > INFINITY_BITS
    }

    pub fn is_finite(&self) -> (r: bool)
        ensures
            r == is_finite(self.bits),
    {
        self.magnitude() < INFINITY_BITS
    }

    fn order_key(&self) -> (r: u64)
        ensures
            r == order_key(self.bits),
    {
        let m = self.magnitude();
        if self.bits >= SIGN_BIT {
            SIGN_BIT - 1 - m
        } else {
            SIGN_BIT + m
        }
    }

    /// Whether `self < other` as binary64 values.
    pub fn lt(&self, other: &Scalar) -> (r: bool)
        ensures
            r == lt(self.bits, other.bits),
    {
        if self.is_nan() || other.is_nan() {
            return false;
        }
        if self.magnitude() == 0 && other.magnitude() == 0 {
            return false;
        }
        self.order_key() < other.order_key()
    }

    /// Whether `self <= other` as binary64 values.
    pub fn le(&self, other: &Scalar) -> (r: bool)
        ensures
            r == le(self.bits, other.bits),
    {
        !self.is_nan() && !other.is_nan() && !other.lt(self)
    }

    /// `-self`, which is exact in binary64.
    pub fn neg(&self) -> (r: Scalar)
        ensures
            r.bits == negated(self.bits),
    {
        if self.bits >= SIGN_BIT {
            Scalar { bits: self.bits - SIGN_BIT }
        } else {
            Scalar { bits: self.bits + SIGN_BIT }
        }
    }
}

/// On values that are not NaN, `<` is a strict order and `<=` is total:
/// of two values one is at most the other.
pub proof fn lemma_order_total(a: u64, b: u64, c: u64)
    requires
        !is_nan(a),
        !is_nan(b),
        !is_nan(c),
    ensures
        !lt(a, a),
        lt(a, b) ==> !lt(b, a),
        lt(a, b) && lt(b, c) ==> lt(a, c),
        le(a, b) || le(b, a),
        le(a, b) && le(b, c) ==> le(a, c),
        !lt(a, b) ==> le(b, a),
{
}

} // verus!
