use vstd::prelude::*;

verus! {

/// Multiplier of the noise generator's linear congruential step.
pub const LCG_MULTIPLIER: u32 = 1664525;

/// Increment of the noise generator's linear congruential step.
pub const LCG_INCREMENT: u32 = 1013904223;

/// Seed of a generator made with `new`.
pub const DEFAULT_SEED: u32 = 0x12345678;

/// The state that follows `s`: `s * 1664525 + 1013904223` modulo 2^32.
pub open spec fn lcg_next(s: u32) -> u32 {
    ((s as int * LCG_MULTIPLIER as int + LCG_INCREMENT as int) % 0x1_0000_0000) as u32
}

/// The state after `k` steps from `s`.
pub open spec fn lcg_iterate(s: u32, k: nat) -> u32
    decreases k,
{
    if k == 0 {
        s
    } else {
        lcg_next(lcg_iterate(s, (k - 1) as nat))
    }
}

/// Deterministic white-noise source: a 32-bit linear congruential
/// generator. Each step's state, scaled from [0, 2^32) onto [-1, 1],
/// is one noise sample.
pub struct NoiseGenerator {
    state: u32,
}

impl NoiseGenerator {
    pub closed spec fn spec_state(&self) -> u32 {
        self.state
    }

    /// A generator with the fixed default seed.
    pub fn new() -> (r: Self)
        ensures
            r.spec_state() == DEFAULT_SEED,
    {
        NoiseGenerator { state: DEFAULT_SEED }
    }

    /// A generator starting from `seed`.
    pub fn new_with_seed(seed: u32) -> (r: Self)
        ensures
            r.spec_state() == seed,
    {
        NoiseGenerator { state: seed }
    }

    /// Advances one step and returns the new state.
    pub fn next_u32(&mut self) -> (r: u32)
        ensures
            r == lcg_next(old(self).spec_state()),
            final(self).spec_state() == r,
    {
        self.state = self.state.wrapping_mul(LCG_MULTIPLIER).wrapping_add(LCG_INCREMENT);
        proof {
            let s = old(self).spec_state() as int;
            vstd::arithmetic::div_mod::lemma_add_mod_noop(
                s * LCG_MULTIPLIER as int,
                LCG_INCREMENT as int,
                0x1_0000_0000,
            );
            vstd::arithmetic::div_mod::lemma_small_mod(LCG_INCREMENT as nat, 0x1_0000_0000);
        }
        self.state
    }
}

/// Two generators started from the same seed give the same states.
pub proof fn lemma_noise_deterministic(a: NoiseGenerator, b: NoiseGenerator, k: nat)
    requires
        a.spec_state() == b.spec_state(),
    ensures
        lcg_iterate(a.spec_state(), k) == lcg_iterate(b.spec_state(), k),
{
}

} // verus!
