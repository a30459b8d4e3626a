//! The source of randomness that the effect draws its delays, refresh
//! decisions and mask glyphs from.

use rand::rngs::StdRng;
use rand::Rng;
use rand::SeedableRng;
use vstd::prelude::*;

use crate::glyphs::{glyph_at, is_glyph, GLYPH_COUNT};
use crate::timing::{MAX_DELAY_MS, MIN_DELAY_MS};

verus! {

/// `rand::rngs::StdRng`, the generator behind `RandomSource`. Nothing of its
/// state is visible here.
#[verifier::external_type_specification]
#[verifier::external_body]
pub struct ExStdRng(rand::rngs::StdRng);

/// Calls `rand::SeedableRng::seed_from_u64` for `rand::rngs::StdRng`.
/// Nothing is claimed of the generator that comes back.
#[verifier::external_body]
fn generator_from_seed(seed: u64) -> StdRng {
    StdRng::seed_from_u64(seed)
}

/// Calls `rand::Rng::gen_range` on the half-open range `low..high`.
/// The range must not be empty, since `gen_range` panics on an empty range;
/// the value drawn lies in the range.
#[verifier::external_body]
fn sample_range(generator: &mut StdRng, low: u64, high: u64) -> (value: u64)
    requires
        low < high,
    ensures
        low <= value < high,
{
    generator.gen_range(low..high)
}

/// How likely a masked character is to change its mask glyph in a frame.
#[derive(Clone, Copy, Debug, PartialEq, Eq, Structural)]
pub enum Odds {
    /// One frame in three: the character is nearly due.
    OneInThree,
    /// One frame in ten.
    OneInTen,
}

impl Odds {
    /// The number of equally likely outcomes of which one is a hit.
    pub open spec fn spec_denominator(self) -> u64 {
        match self {
            Odds::OneInThree => 3,
            Odds::OneInTen => 10,
        }
    }

    /// The number of equally likely outcomes of which one is a hit.
    #[verifier::when_used_as_spec(spec_denominator)]
    pub fn denominator(self) -> (n: u64)
        ensures
            n == self.spec_denominator(),
    {
        match self {
            Odds::OneInThree => 3,
            Odds::OneInTen => 10,
        }
    }

    /// Whether the outcome of a roll is the hit: of the outcomes
    /// `0..self.denominator()` it is the first.
    pub fn is_hit(self, outcome: u64) -> (hit: bool)
        ensures
            hit == (outcome == 0),
    {
        outcome == 0
    }
}

/// `count` raised by `more`, held at the largest `u64`.
pub open spec fn tally(count: u64, more: nat) -> u64 {
    if count + more > u64::MAX {
        u64::MAX
    } else {
        (count + more) as u64
    }
}

/// A seeded pseudo-random generator that counts the glyphs it has handed out.
pub struct RandomSource {
    generator: StdRng,
    glyphs: u64,
}

impl RandomSource {
    /// Number of glyphs drawn so far (it stops counting at `u64::MAX`).
    pub closed spec fn spec_glyphs_drawn(&self) -> u64 {
        self.glyphs
    }

    /// A generator whose whole sequence is fixed by `seed`.
    pub fn seeded(seed: u64) -> (source: Self)
        ensures
            source.glyphs_drawn() == 0,
    {
        RandomSource { generator: generator_from_seed(seed), glyphs: 0 }
    }

    /// Number of glyphs drawn so far (it stops counting at `u64::MAX`).
    #[verifier::when_used_as_spec(spec_glyphs_drawn)]
    pub fn glyphs_drawn(&self) -> (count: u64)
        ensures
            count == self.glyphs_drawn(),
    {
        self.glyphs
    }

    /// Draws a reveal delay in milliseconds, uniformly from
    /// `MIN_DELAY_MS..MAX_DELAY_MS`.
    pub fn delay_ms(&mut self) -> (ms: u64)
        ensures
            MIN_DELAY_MS <= ms < MAX_DELAY_MS,
            final(self).glyphs_drawn() == old(self).glyphs_drawn(),
    {
        sample_range(&mut self.generator, MIN_DELAY_MS, MAX_DELAY_MS)
    }

    /// Rolls for an event with the given odds: draws one of the equally
    /// likely outcomes `0..odds.denominator()`.
    pub fn roll(&mut self, odds: Odds) -> (outcome: u64)
        ensures
            outcome < odds.denominator(),
            final(self).glyphs_drawn() == old(self).glyphs_drawn(),
    {
        sample_range(&mut self.generator, 0, odds.denominator())
    }

    /// Draws one glyph of the masking alphabet, each with the same chance.
    pub fn glyph(&mut self) -> (glyph: char)
        ensures
            is_glyph(glyph),
            final(self).glyphs_drawn() == tally(old(self).glyphs_drawn(), 1),
    {
        let index: u64 = sample_range(&mut self.generator, 0, GLYPH_COUNT as u64);
        if self.glyphs < u64::MAX {
            self.glyphs = self.glyphs + 1;
        }
        glyph_at(index as u8)
    }
}

} // verus!
