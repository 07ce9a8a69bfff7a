//! The alpha sub-effect.
use vstd::prelude::*;

use crate::phase::Phase;
use crate::scalar::{Scalar, ONE_BITS, ZERO_BITS};
use crate::wave::Wave;

verus! {

/// A wave-driven change of transparency toward `target_alpha`.
#[derive(Clone, Copy, Debug, PartialEq, Eq, Structural)]
pub struct AlphaEffect {
    pub phase: Phase,
    pub wave: Wave,
    pub target_alpha: Scalar,
}

impl AlphaEffect {
    pub open spec fn spec_new(target: Scalar, wave: Wave) -> AlphaEffect {
        AlphaEffect { phase: Phase::spec_full(), wave, target_alpha: target }
    }

    /// The no-op alpha effect: a zero constant wave toward full opacity.
    pub open spec fn spec_default() -> AlphaEffect {
        AlphaEffect::spec_new(Scalar::of(ONE_BITS), Wave::spec_constant(Scalar::of(ZERO_BITS)))
    }

    /// An alpha effect over the whole lifetime.
    pub fn new(target: Scalar, wave: Wave) -> (r: AlphaEffect)
        ensures
            r == AlphaEffect::spec_new(target, wave),
    {
        AlphaEffect { phase: Phase::full(), wave, target_alpha: target }
    }

    pub fn with_phase(self, phase: Phase) -> (r: AlphaEffect)
        ensures
            r == (AlphaEffect { phase, ..self }),
    {
        AlphaEffect { phase, ..self }
    }
}

impl Default for AlphaEffect {
    fn default() -> (r: AlphaEffect)
        ensures
            r == AlphaEffect::spec_default(),
    {
        AlphaEffect::new(Scalar::one(), Wave::constant(Scalar::zero()))
    }
}

} // verus!
