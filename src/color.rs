//! Color sub-effects, their blend modes and their composite modes.
use vstd::prelude::*;

use crate::phase::Phase;
use crate::scalar::{Scalar, Vec4, ONE_BITS, TWO_BITS, ZERO_BITS};
use crate::wave::Wave;

verus! {

/// How a color effect's color combines with the sprite's texture color.
#[derive(Clone, Copy, Debug, PartialEq, Eq, Structural)]
pub enum BlendMode {
    /// Interpolation between base and target color.
    Lerp,
    /// Additive blending.
    Add,
    /// Multiplicative blending.
    Multiply,
    /// Inverse multiply.
    Screen,
    /// Hue, saturation and value shift.
    Hsv,
}

impl BlendMode {
    /// The code the shader reads for this mode.
    pub open spec fn code(self) -> u32 {
        match self {
            BlendMode::Lerp => 0,
            BlendMode::Add => 1,
            BlendMode::Multiply => 2,
            BlendMode::Screen => 3,
            BlendMode::Hsv => 4,
        }
    }

    pub fn to_u32(self) -> (r: u32)
        ensures
            r == self.code(),
    {
        match self {
            BlendMode::Lerp => 0,
            BlendMode::Add => 1,
            BlendMode::Multiply => 2,
            BlendMode::Screen => 3,
            BlendMode::Hsv => 4,
        }
    }
}

impl Default for BlendMode {
    fn default() -> (r: BlendMode)
        ensures
            r == BlendMode::Lerp,
    {
        BlendMode::Lerp
    }
}

/// How simultaneous color effects accumulate. The mode is carried in the fourth
/// channel of the effect's color.
#[derive(Clone, Copy, Debug, PartialEq, Eq, Structural)]
pub enum CompositeMode {
    /// Mode 0: applied in stack order after the accumulated pass, each on the output
    /// of the one before.
    Multiplicative,
    /// Mode 1: weighted average, capped at the strongest single contributor.
    Contributive,
    /// Mode 2: summed without a cap.
    Additive,
}

impl CompositeMode {
    /// The mode's number.
    pub open spec fn code(self) -> u32 {
        match self {
            CompositeMode::Multiplicative => 0,
            CompositeMode::Contributive => 1,
            CompositeMode::Additive => 2,
        }
    }

    /// The mode's number as a single-precision value: `0.0`, `1.0` or `2.0`.
    pub open spec fn spec_selector(self) -> Scalar {
        match self {
            CompositeMode::Multiplicative => Scalar::of(ZERO_BITS),
            CompositeMode::Contributive => Scalar::of(ONE_BITS),
            CompositeMode::Additive => Scalar::of(TWO_BITS),
        }
    }

    pub fn to_u32(self) -> (r: u32)
        ensures
            r == self.code(),
    {
        match self {
            CompositeMode::Multiplicative => 0,
            CompositeMode::Contributive => 1,
            CompositeMode::Additive => 2,
        }
    }

    /// The value stored in a color's fourth channel to select this mode.
    pub fn selector(self) -> (r: Scalar)
        ensures
            r == self.spec_selector(),
    {
        match self {
            CompositeMode::Multiplicative => Scalar::zero(),
            CompositeMode::Contributive => Scalar::one(),
            CompositeMode::Additive => Scalar::from_bits(TWO_BITS),
        }
    }
}

impl Default for CompositeMode {
    fn default() -> (r: CompositeMode)
        ensures
            r == CompositeMode::Contributive,
    {
        CompositeMode::Contributive
    }
}

/// A wave-driven color change: window, wave, color (fourth channel: composite mode)
/// and blend mode code.
#[derive(Clone, Copy, Debug, PartialEq, Eq, Structural)]
pub struct ColorEffect {
    pub phase: Phase,
    pub wave: Wave,
    pub color: Vec4,
    /// Blend mode code (see [`BlendMode`]).
    pub blend_mode: u32,
}

impl ColorEffect {
    pub open spec fn spec_new(color: Vec4, wave: Wave) -> ColorEffect {
        ColorEffect { phase: Phase::spec_full(), wave, color, blend_mode: 0 }
    }

    /// The unused slot: full window, all-zero wave and color, lerp.
    pub open spec fn spec_default() -> ColorEffect {
        ColorEffect::spec_new(
            Vec4 {
                x: Scalar::of(ZERO_BITS),
                y: Scalar::of(ZERO_BITS),
                z: Scalar::of(ZERO_BITS),
                w: Scalar::of(ZERO_BITS),
            },
            Wave::spec_default(),
        )
    }

    /// A color effect over the whole lifetime, blended by lerp.
    pub fn new(color: Vec4, wave: Wave) -> (r: ColorEffect)
        ensures
            r == ColorEffect::spec_new(color, wave),
    {
        ColorEffect { phase: Phase::full(), wave, color, blend_mode: BlendMode::Lerp.to_u32() }
    }

    pub fn with_phase(self, phase: Phase) -> (r: ColorEffect)
        ensures
            r == (ColorEffect { phase, ..self }),
    {
        ColorEffect { phase, ..self }
    }

    pub fn with_blend_mode(self, mode: BlendMode) -> (r: ColorEffect)
        ensures
            r == (ColorEffect { blend_mode: mode.code(), ..self }),
    {
        ColorEffect { blend_mode: mode.to_u32(), ..self }
    }
}

impl Default for ColorEffect {
    fn default() -> (r: ColorEffect)
        ensures
            r == ColorEffect::spec_default(),
    {
        ColorEffect::new(Vec4::zero(), Wave::default())
    }
}

} // verus!
