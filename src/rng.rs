//! A small deterministic random source for sampling: xorshift64, seeded per
//! render so that output is reproducible.
use vstd::prelude::*;
use crate::scalar::{Scalar, ONE_BITS, lt, le};

verus! {

/// Encoding of `2.0`.
pub const TWO_BITS: u64 = 0x4000_0000_0000_0000;

/// One step of the xorshift64 generator.
pub open spec fn xorshift(s: u64) -> u64 {
    let a = s ^ (s << 13u64);
    let b = a ^ (a >> 7u64);
    b ^ (b << 17u64)
}

/// A xorshift64 generator. Its state is never zero, the one state the step
/// maps to itself.
pub struct Rng {
    state: u64,
}

impl Rng {
    pub closed spec fn state(&self) -> u64 {
        self.state
    }

    pub open spec fn wf(&self) -> bool {
        self.state() != 0
    }

    /// A generator from a seed; seed zero is replaced by one.
    pub fn new(seed: u64) -> (r: Rng)
        ensures
            r.wf(),
            r.state() == if seed == 0 { 1 } else { seed },
    {
        Rng { state: if seed == 0 { 1 } else { seed } }
    }

    /// The next 64 random bits: the state after one step.
    pub fn next_u64(&mut self) -> (r: u64)
        requires
            old(self).wf(),
        ensures
            final(self).wf(),
            final(self).state() == xorshift(old(self).state()),
            r == final(self).state(),
    {
        let s = self.state;
        let a = s ^ (s << 13u64);
        let b = a ^ (a >> 7u64);
        let n = b ^ (b << 17u64);
        assert(n != 0) by (bit_vector)
            requires
                s != 0,
                a == s ^ (s << 13u64),
                b == a ^ (a >> 7u64),
                n == b ^ (b << 17u64),
        ;
        self.state = n;
        n
    }

    /// A uniform draw in `[1, 2)`: the top 52 of the next random bits as the
    /// fraction of a number with exponent zero. Subtracting one gives a draw
    /// in `[0, 1)`.
    pub fn next_in_one_two(&mut self) -> (r: Scalar)
        requires
            old(self).wf(),
        ensures
            final(self).wf(),
            final(self).state() == xorshift(old(self).state()),
            r.bits == ONE_BITS + final(self).state() / 0x1000,
            le(ONE_BITS, r.bits),
            lt(r.bits, TWO_BITS),
    {
        let x = self.next_u64();
        Scalar::from_bits(ONE_BITS + x / 0x1000)
    }
}

} // verus!
