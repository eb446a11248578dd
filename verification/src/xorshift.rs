//! The xorshift64 generator that makes test inputs reproducible per seed.

use vstd::prelude::*;

verus! {

/// The seed used in place of 0, which xorshift would never leave.
pub const XORSHIFT_ZERO_SEED: u64 = 0xdeadbeefcafebabe;

/// One xorshift64 step (shifts 13, 7, 17).
pub open spec fn xorshift_step(x: u64) -> u64 {
    let a = x ^ (x << 13u64);
    let b = a ^ (a >> 7u64);
    b ^ (b << 17u64)
}

/// A step never turns a nonzero state into zero: each of the three
/// xor-shifts is invertible.
pub proof fn lemma_step_nonzero(x: u64)
    requires
        x != 0,
    ensures
        xorshift_step(x) != 0,
{
    let a = x ^ (x << 13u64);
    let b = a ^ (a >> 7u64);
    let c = b ^ (b << 17u64);
    assert(a != 0) by (bit_vector)
        requires
            x != 0,
            a == x ^ (x << 13u64),
    ;
    assert(b != 0) by (bit_vector)
        requires
            a != 0,
            b == a ^ (a >> 7u64),
    ;
    assert(c != 0) by (bit_vector)
        requires
            b != 0,
            c == b ^ (b << 17u64),
    ;
}

/// An xorshift64 pseudo-random generator.
pub struct XorShift64(u64);

impl XorShift64 {
    /// The state is never zero (zero is a fixed point of xorshift).
    #[verifier::type_invariant]
    spec fn inv(self) -> bool {
        self.0 != 0
    }

    /// The current state.
    pub closed spec fn state(&self) -> u64 {
        self.0
    }

    /// A generator seeded with `seed`, or with `XORSHIFT_ZERO_SEED` when
    /// `seed` is 0.
    pub fn new(seed: u64) -> (r: Self)
        ensures
            r.state() == (if seed == 0 {
                XORSHIFT_ZERO_SEED
            } else {
                seed
            }),
    {
        XorShift64(if seed == 0 { XORSHIFT_ZERO_SEED } else { seed })
    }

    /// Advances the state by one step and returns the new state.
    pub fn next_u64(&mut self) -> (r: u64)
        ensures
            r == xorshift_step(old(self).state()),
            final(self).state() == r,
            r != 0,
    {
        proof {
            use_type_invariant(&*self);
            lemma_step_nonzero(self.0);
        }
        let mut x = self.0;
        x ^= x << 13;
        x ^= x >> 7;
        x ^= x << 17;
        self.0 = x;
        x
    }

    /// The low byte of the next value.
    pub fn next_byte(&mut self) -> (r: u8)
        ensures
            final(self).state() == xorshift_step(old(self).state()),
            r == (xorshift_step(old(self).state()) & 0xff) as u8,
    {
        (self.next_u64() & 0xff) as u8
    }
}

} // verus!
