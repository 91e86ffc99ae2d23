//! A 32-bit xorshift generator.
use vstd::prelude::*;

verus! {

/// One xorshift32 step: shift left by 13, right by 17, left by 5, each
/// xored back into the state.
pub open spec fn xorshift(x: u32) -> u32 {
    let a = x ^ (x << 13u32);
    let b = a ^ (a >> 17u32);
    b ^ (b << 5u32)
}

/// The seed `Rng::default` starts from: the bytes `CLNK` read big-endian.
pub const DEFAULT_SEED: u32 = 0x434C_4E4Bu32;

/// A xorshift step never leaves a nonzero state at zero: zero is the only
/// fixed point of the generator, and every other state maps to a nonzero one.
pub proof fn lemma_xorshift_nonzero(x: u32)
    requires
        x != 0,
    ensures
        xorshift(x) != 0,
{
    assert(x != 0 ==> {
        let a = x ^ (x << 13u32);
        let b = a ^ (a >> 17u32);
        b ^ (b << 5u32) != 0
    }) by (bit_vector);
}

/// Zero is a fixed point of the step.
pub proof fn lemma_xorshift_zero()
    ensures
        xorshift(0) == 0,
{
    assert({
        let x = 0u32;
        let a = x ^ (x << 13u32);
        let b = a ^ (a >> 17u32);
        b ^ (b << 5u32) == 0
    }) by (bit_vector);
}

/// A xorshift32 random number generator. Its state is never zero.
pub struct Rng(u32);

impl View for Rng {
    type V = u32;

    closed spec fn view(&self) -> u32 {
        self.0
    }
}

impl Rng {
    #[verifier::type_invariant]
    closed spec fn state_nonzero(self) -> bool {
        self.0 != 0
    }

    /// Seeds the generator with `seed` (or 1 when `seed` is 0) and steps it once.
    pub fn new(seed: u32) -> (r: Self)
        ensures
            r@ == xorshift(if seed == 0 { 1u32 } else { seed }),
            r@ != 0,
    {
        let start: u32 = if seed > 1 { seed } else { 1 };
        let mut rng = Rng(start);
        rng.next();
        rng
    }

    /// Advances the state one step and returns the new state.
    pub fn next(&mut self) -> (r: u32)
        ensures
            r == xorshift(old(self)@),
            final(self)@ == r,
            r != 0,
    {
        proof {
            use_type_invariant(&*self);
            lemma_xorshift_nonzero(self.0);
        }
        let x = xorshift_step(self.0);
        self.0 = x;
        x
    }

    /// The next value reduced modulo `n`.
    pub fn range(&mut self, n: u32) -> (r: u32)
        requires
            n > 0,
        ensures
            r == xorshift(old(self)@) % n,
            final(self)@ == xorshift(old(self)@),
            r < n,
    {
        self.next() % n
    }
}

impl Default for Rng {
    /// A generator seeded with `DEFAULT_SEED`.
    fn default() -> (r: Self)
        ensures
            r@ == xorshift(DEFAULT_SEED),
    {
        Self::new(DEFAULT_SEED)
    }
}

/// The executable xorshift step.
fn xorshift_step(x: u32) -> (r: u32)
    ensures
        r == xorshift(x),
{
    let mut s = x;
    s = s ^ (s << 13u32);
    s = s ^ (s >> 17u32);
    s = s ^ (s << 5u32);
    s
}

} // verus!
