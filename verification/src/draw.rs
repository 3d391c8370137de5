//! Random draws from rand's thread-local generator. A `Draw` can only be
//! made by drawing, so the ratio it reports is the one the draw was made
//! with.

use vstd::prelude::*;
use rand::Rng;

verus! {

/// A random draw: the ratio it was made with, and what came out.
#[derive(Clone, Copy, Debug, PartialEq, Eq, Structural)]
pub struct Draw {
    numerator: u32,
    denominator: u32,
    outcome: bool,
}

impl Draw {
    pub closed spec fn spec_numerator(self) -> u32 {
        self.numerator
    }

    pub closed spec fn spec_denominator(self) -> u32 {
        self.denominator
    }

    pub closed spec fn spec_outcome(self) -> bool {
        self.outcome
    }

    /// The numerator of the ratio the draw was made with.
    pub fn numerator(&self) -> (n: u32)
        ensures
            n == self.spec_numerator(),
    {
        self.numerator
    }

    /// The denominator of the ratio the draw was made with.
    pub fn denominator(&self) -> (d: u32)
        ensures
            d == self.spec_denominator(),
    {
        self.denominator
    }

    /// What came out of the draw.
    pub fn outcome(&self) -> (b: bool)
        ensures
            b == self.spec_outcome(),
    {
        self.outcome
    }
}

/// Calls `rand::Rng::gen_ratio` on the thread-local generator: `true` with
/// probability `numerator / denominator`, returned together with the ratio it
/// was asked for. rand's source panics unless `0 < denominator` and
/// `numerator <= denominator`, always answers `true` when the two are equal,
/// and never answers `true` for a zero numerator. Which answer comes back
/// otherwise is left to chance and is not stated.
#[verifier::external_body]
pub(crate) fn random_ratio(numerator: u32, denominator: u32) -> (d: Draw)
    requires
        0 < denominator,
        numerator <= denominator,
    ensures
        d.spec_numerator() == numerator,
        d.spec_denominator() == denominator,
        numerator == 0 ==> !d.spec_outcome(),
        numerator == denominator ==> d.spec_outcome(),
{
    Draw { numerator, denominator, outcome: rand::thread_rng().gen_ratio(numerator, denominator) }
}

} // verus!
