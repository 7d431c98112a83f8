//! A small seedable pseudo-random generator.
//!
//! The initializer takes the generator as an explicit argument, so a run is
//! reproducible from its seed.  The generator is a 64-bit xorshift; its
//! whole behaviour is stated exactly, and the range draw promises no more
//! than its bounds, which is all the initializer's contract relies on.

use vstd::prelude::*;

use crate::config::COORD_LIMIT;

verus! {

/// One xorshift round: the successor of a generator state.
pub open spec fn xorshift_round(s: u64) -> u64 {
    let a = s ^ (s << 13);
    let b = a ^ (a >> 7);
    b ^ (b << 17)
}

/// The default state taken in place of a zero seed (the golden-ratio
/// constant), since zero is a fixed point of xorshift.
pub const SEED_FALLBACK: u64 = 0x9E37_79B9_7F4A_7C15;

/// A seedable 64-bit xorshift generator.
pub struct Rng64 {
    pub state: u64,
}

impl Rng64 {
    /// Builds a generator from a seed; a zero seed is replaced by
    /// [`SEED_FALLBACK`].
    pub fn new(seed: u64) -> (r: Rng64)
        ensures
            r.state == if seed == 0 {
                SEED_FALLBACK
            } else {
                seed
            },
    {
        if seed == 0 {
            Rng64 { state: SEED_FALLBACK }
        } else {
            Rng64 { state: seed }
        }
    }

    /// Draws the next raw 64-bit value.
    pub fn next_u64(&mut self) -> (r: u64)
        ensures
            final(self).state == xorshift_round(old(self).state),
            r == final(self).state,
    {
        let mut s = self.state;
        s = s ^ (s << 13u64);
        s = s ^ (s >> 7u64);
        s = s ^ (s << 17u64);
        self.state = s;
        s
    }

    /// Draws a value in `[lo, hi]`, both ends included.
    pub fn random_range(&mut self, lo: i64, hi: i64) -> (r: i64)
        requires
            lo <= hi,
            -COORD_LIMIT <= lo,
            hi <= COORD_LIMIT,
        ensures
            lo <= r <= hi,
            final(self).state == xorshift_round(old(self).state),
            r == lo + (xorshift_round(old(self).state) as int) % (hi - lo + 1),
    {
        let x = self.next_u64();
        let width = ((hi - lo) as u64) + 1;
        let off = x % width;
        lo + (off as i64)
    }
}

} // verus!
