//! Deterministic pseudo-random source for the simulation: the xoshiro256+
//! generator of Blackman and Vigna, seeded through SplitMix64. Every draw is
//! specified exactly as a function of the generator state, so a seeded run of
//! the simulator is a mathematical function of its inputs.

use vstd::prelude::*;

verus! {

/// The four 64-bit state words of a xoshiro256+ generator.
pub type RngState = (u64, u64, u64, u64);

/// The SplitMix64 state increment (the golden-ratio constant).
pub const SPLITMIX_PHI: u64 = 0x9e3779b97f4a7c15;

/// One SplitMix64 state advance.
pub open spec fn splitmix_advance(x: u64) -> u64 {
    x.wrapping_add(SPLITMIX_PHI)
}

/// The SplitMix64 output mix applied to an already-advanced state word.
pub open spec fn splitmix_mix(x: u64) -> u64 {
    let z1 = (x ^ (x >> 30u64)).wrapping_mul(0xbf58476d1ce4e5b9u64);
    let z2 = (z1 ^ (z1 >> 27u64)).wrapping_mul(0x94d049bb133111ebu64);
    z2 ^ (z2 >> 31u64)
}

/// Left rotation of a 64-bit word by 45 bits.
pub open spec fn rotl45(x: u64) -> u64 {
    (x << 45u64) | (x >> 19u64)
}

/// The value a xoshiro256+ generator in state `s` returns for its next draw.
pub open spec fn xoshiro_output(s: RngState) -> u64 {
    s.0.wrapping_add(s.3)
}

/// The state a xoshiro256+ generator in state `s` moves to after one draw.
pub open spec fn xoshiro_advance(s: RngState) -> RngState {
    let t = s.1 << 17u64;
    let s2a = s.2 ^ s.0;
    let s3a = s.3 ^ s.1;
    let s1a = s.1 ^ s2a;
    let s0a = s.0 ^ s3a;
    let s2b = s2a ^ t;
    (s0a, s1a, s2b, rotl45(s3a))
}

/// The xoshiro256+ state derived from a 64-bit seed: each state word is one
/// successive SplitMix64 output, the standard seeding recommended for the
/// xoshiro family.
pub open spec fn seed_state(seed: u64) -> RngState {
    let x1 = splitmix_advance(seed);
    let x2 = splitmix_advance(x1);
    let x3 = splitmix_advance(x2);
    let x4 = splitmix_advance(x3);
    (splitmix_mix(x1), splitmix_mix(x2), splitmix_mix(x3), splitmix_mix(x4))
}

/// Threshold a uniform 64-bit draw is compared against for a fair coin:
/// exactly half of the 2^64 draw values lie below it.
pub const HALF_RANGE: u64 = 0x8000000000000000;

/// A xoshiro256+ pseudo-random generator. The simulation owns exactly one,
/// injected at construction so that seeded runs are reproducible.
pub struct Xoshiro256Plus {
    pub s0: u64,
    pub s1: u64,
    pub s2: u64,
    pub s3: u64,
}

impl View for Xoshiro256Plus {
    type V = RngState;

    open spec fn view(&self) -> RngState {
        (self.s0, self.s1, self.s2, self.s3)
    }
}

/// The SplitMix64 output mix, executable form.
fn splitmix_mix_exec(x: u64) -> (r: u64)
    ensures
        r == splitmix_mix(x),
{
    let z1 = (x ^ (x >> 30u64)).wrapping_mul(0xbf58476d1ce4e5b9u64);
    let z2 = (z1 ^ (z1 >> 27u64)).wrapping_mul(0x94d049bb133111ebu64);
    z2 ^ (z2 >> 31u64)
}

impl Xoshiro256Plus {
    /// Builds a generator from one 64-bit seed via SplitMix64.
    pub fn seed_from_u64(seed: u64) -> (r: Self)
        ensures
            r@ == seed_state(seed),
    {
        let x1 = seed.wrapping_add(SPLITMIX_PHI);
        let x2 = x1.wrapping_add(SPLITMIX_PHI);
        let x3 = x2.wrapping_add(SPLITMIX_PHI);
        let x4 = x3.wrapping_add(SPLITMIX_PHI);
        Xoshiro256Plus {
            s0: splitmix_mix_exec(x1),
            s1: splitmix_mix_exec(x2),
            s2: splitmix_mix_exec(x3),
            s3: splitmix_mix_exec(x4),
        }
    }

    /// Builds a generator directly from four state words, e.g. words drawn
    /// from an entropy source by the caller.
    pub fn from_words(s0: u64, s1: u64, s2: u64, s3: u64) -> (r: Self)
        ensures
            r@ == (s0, s1, s2, s3),
    {
        Xoshiro256Plus { s0, s1, s2, s3 }
    }

    /// Returns the next uniform 64-bit draw and advances the state.
    pub fn next_u64(&mut self) -> (r: u64)
        ensures
            r == xoshiro_output(old(self)@),
            final(self)@ == xoshiro_advance(old(self)@),
    {
        let r = self.s0.wrapping_add(self.s3);
        let t = self.s1 << 17u64;
        self.s2 = self.s2 ^ self.s0;
        self.s3 = self.s3 ^ self.s1;
        self.s1 = self.s1 ^ self.s2;
        self.s0 = self.s0 ^ self.s3;
        self.s2 = self.s2 ^ t;
        self.s3 = (self.s3 << 45u64) | (self.s3 >> 19u64);
        r
    }

    /// Draws a fair boolean: true iff the next 64-bit draw falls in the lower
    /// half of the range.
    pub fn next_bool(&mut self) -> (r: bool)
        ensures
            r == (xoshiro_output(old(self)@) < HALF_RANGE),
            final(self)@ == xoshiro_advance(old(self)@),
    {
        let draw = self.next_u64();
        draw < HALF_RANGE
    }
}

} // verus!
