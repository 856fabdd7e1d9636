//! A small, reproducible noise source for trying a detector on audio that
//! should not match.
//!
//! The source is a linear congruential generator that its caller owns and
//! seeds.  It hands out levels from 0 to 32767, which the caller scales to
//! sample amplitudes.

use vstd::prelude::*;

verus! {

/// State that follows `state`: `state * 1103515245 + 12345`, wrapped to 32
/// bits.
pub open spec fn next_state(state: u32) -> u32 {
    ((state * 1103515245 + 12345) % 0x1_0000_0000) as u32
}

/// Level that a state hands out: bits 16 to 30 of the state.
pub open spec fn level_of(state: u32) -> u16 {
    (state / 65536 % 32768) as u16
}

/// A seeded generator of noise levels.
#[derive(Debug, Clone, Copy, PartialEq, Eq)]
pub struct NoiseGenerator {
    state: u32,
}

impl NoiseGenerator {
    /// The generator's current state.
    pub closed spec fn spec_state(&self) -> u32 {
        self.state
    }

    /// A generator that starts from `seed`.
    pub fn new(seed: u32) -> (generator: Self)
        ensures
            generator.spec_state() == seed,
    {
        NoiseGenerator { state: seed }
    }

    /// The generator's current state.
    #[verifier::when_used_as_spec(spec_state)]
    pub fn state(&self) -> (state: u32)
        ensures
            state == self.spec_state(),
    {
        self.state
    }

    /// Advances the generator by one step and hands out the level of its new
    /// state.
    pub fn next_level(&mut self) -> (level: u16)
        ensures
            final(self).spec_state() == next_state(old(self).spec_state()),
            level == level_of(final(self).spec_state()),
            level < 32768,
    {
        let scaled: u32 = self.state.wrapping_mul(1103515245);
        let stepped: u32 = scaled.wrapping_add(12345);
        proof {
            let product: int = self.state as int * 1103515245;
            assert(scaled as int == product % 0x1_0000_0000);
            vstd::arithmetic::div_mod::lemma_add_mod_noop(product, 12345, 0x1_0000_0000);
            vstd::arithmetic::div_mod::lemma_small_mod(12345, 0x1_0000_0000);
            assert(stepped as int == (scaled + 12345) % 0x1_0000_0000) by {
                if scaled + 12345 > u32::MAX {
                    vstd::arithmetic::div_mod::lemma_fundamental_div_mod_converse(
                        scaled + 12345,
                        0x1_0000_0000,
                        1,
                        scaled + 12345 - 0x1_0000_0000,
                    );
                } else {
                    vstd::arithmetic::div_mod::lemma_small_mod(
                        (scaled + 12345) as nat,
                        0x1_0000_0000,
                    );
                }
            }
        }
        self.state = stepped;
        (stepped / 65536 % 32768) as u16
    }
}

} // verus!
