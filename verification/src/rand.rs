//! A linear-congruential pseudo-random byte generator, seeded from the
//! wall clock at construction. Within a run the sequence is a pure
//! function of the seed; across runs the seed varies.

use vstd::prelude::*;

verus! {

/// Multiplier of the linear-congruential step.
pub const LCG_MULTIPLIER: u128 = 6364136223846793005;

/// Increment of the linear-congruential step.
pub const LCG_INCREMENT: u128 = 1442695040888963407;

/// Modulus of the linear-congruential step.
pub const LCG_MODULUS: u128 = u128::MAX;

/// One linear-congruential step: multiply and add with wraparound, then
/// reduce by the modulus.
pub open spec fn lcg_next(state: u128) -> u128 {
    state.wrapping_mul(LCG_MULTIPLIER).wrapping_add(LCG_INCREMENT) % LCG_MODULUS
}

/// Relies on std::time::SystemTime::now and duration_since: the
/// microseconds since the UNIX epoch, or a fixed fallback when the clock
/// reads before the epoch. Used only to seed the generator, so nothing is
/// claimed about the value.
#[verifier::external_body]
fn get_epoch_micros() -> u128 {
    std::time::SystemTime::now()
        .duration_since(std::time::UNIX_EPOCH)
        .map_or(5555u128, |d| d.as_micros())
}

/// The pseudo-random byte generator.
pub struct RandGen {
    /// The multiplier; fixed at construction.
    pub multiplier: u128,
    /// The increment; fixed at construction.
    pub increment: u128,
    /// The modulus; fixed at construction.
    pub modulus: u128,
    /// The current state; the seed before the first `next`.
    pub state: u128,
}

impl RandGen {
    /// The three constants hold their fixed values.
    pub open spec fn wf(self) -> bool {
        &&& self.multiplier == LCG_MULTIPLIER
        &&& self.increment == LCG_INCREMENT
        &&& self.modulus == LCG_MODULUS
    }

    /// Creates a generator seeded from the current time. The seed, and so
    /// the state, is arbitrary.
    pub fn new() -> (r: RandGen)
        ensures
            r.wf(),
    {
        let seed = get_epoch_micros();
        RandGen {
            multiplier: LCG_MULTIPLIER,
            increment: LCG_INCREMENT,
            modulus: LCG_MODULUS,
            state: seed,
        }
    }

    /// Advances the state by one linear-congruential step and returns its
    /// low 8 bits.
    pub fn next(&mut self) -> (r: u8)
        requires
            old(self).wf(),
        ensures
            final(self).wf(),
            final(self).state == lcg_next(old(self).state),
            r == final(self).state as u8,
    {
        self.state = self.state.wrapping_mul(self.multiplier).wrapping_add(self.increment)
            % self.modulus;
        #[verifier::truncate]
        (self.state as u8)
    }
}

} // verus!
