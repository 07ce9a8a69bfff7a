//! Spatial sub-effects: offset, scale, rotation and skew around an anchor.
use vstd::prelude::*;

use crate::phase::Phase;
use crate::scalar::{Scalar, Vec2, HALF_BITS, ONE_BITS, ZERO_BITS};
use crate::wave::Wave;

verus! {

/// Number of spatial manipulation kinds.
pub const SPATIAL_KINDS: usize = 7;

/// The manipulation a spatial effect applies.
#[derive(Clone, Copy, Debug, PartialEq, Eq, Structural)]
pub enum SpatialKind {
    /// Horizontal translation.
    OffsetX,
    /// Vertical translation.
    OffsetY,
    /// Horizontal scale.
    ScaleX,
    /// Vertical scale.
    ScaleY,
    /// Rotation, in radians.
    Rotation,
    /// Shear along x.
    SkewX,
    /// Shear along y.
    SkewY,
}

impl SpatialKind {
    /// The code the shader reads for this manipulation, also its position among kinds.
    pub open spec fn code(self) -> u32 {
        match self {
            SpatialKind::OffsetX => 0,
            SpatialKind::OffsetY => 1,
            SpatialKind::ScaleX => 2,
            SpatialKind::ScaleY => 3,
            SpatialKind::Rotation => 4,
            SpatialKind::SkewX => 5,
            SpatialKind::SkewY => 6,
        }
    }

    pub fn to_u32(self) -> (r: u32)
        ensures
            r == self.code(),
            r < SPATIAL_KINDS,
    {
        match self {
            SpatialKind::OffsetX => 0,
            SpatialKind::OffsetY => 1,
            SpatialKind::ScaleX => 2,
            SpatialKind::ScaleY => 3,
            SpatialKind::Rotation => 4,
            SpatialKind::SkewX => 5,
            SpatialKind::SkewY => 6,
        }
    }

    /// The kind's position among the kinds, in declaration order.
    pub fn index(self) -> (r: usize)
        ensures
            r == self.code(),
            r < SPATIAL_KINDS,
    {
        self.to_u32() as usize
    }
}

/// Preset pivot points, in sprite-relative coordinates.
#[derive(Clone, Copy, Debug, PartialEq, Eq, Structural)]
pub enum Anchor {
    Center,
    TopLeft,
    TopCenter,
    TopRight,
    CenterLeft,
    CenterRight,
    BottomLeft,
    BottomCenter,
    BottomRight,
}

impl Anchor {
    /// The anchor's point: x from left (0) to right (1), y from bottom (0) to top (1).
    pub open spec fn point(self) -> Vec2 {
        match self {
            Anchor::Center => Vec2::of(HALF_BITS, HALF_BITS),
            Anchor::TopLeft => Vec2::of(ZERO_BITS, ONE_BITS),
            Anchor::TopCenter => Vec2::of(HALF_BITS, ONE_BITS),
            Anchor::TopRight => Vec2::of(ONE_BITS, ONE_BITS),
            Anchor::CenterLeft => Vec2::of(ZERO_BITS, HALF_BITS),
            Anchor::CenterRight => Vec2::of(ONE_BITS, HALF_BITS),
            Anchor::BottomLeft => Vec2::of(ZERO_BITS, ZERO_BITS),
            Anchor::BottomCenter => Vec2::of(HALF_BITS, ZERO_BITS),
            Anchor::BottomRight => Vec2::of(ONE_BITS, ZERO_BITS),
        }
    }

    pub fn to_vec2(self) -> (r: Vec2)
        ensures
            r == self.point(),
    {
        let (x, y): (u32, u32) = match self {
            Anchor::Center => (HALF_BITS, HALF_BITS),
            Anchor::TopLeft => (ZERO_BITS, ONE_BITS),
            Anchor::TopCenter => (HALF_BITS, ONE_BITS),
            Anchor::TopRight => (ONE_BITS, ONE_BITS),
            Anchor::CenterLeft => (ZERO_BITS, HALF_BITS),
            Anchor::CenterRight => (ONE_BITS, HALF_BITS),
            Anchor::BottomLeft => (ZERO_BITS, ZERO_BITS),
            Anchor::BottomCenter => (HALF_BITS, ZERO_BITS),
            Anchor::BottomRight => (ONE_BITS, ZERO_BITS),
        };
        Vec2::new(Scalar::from_bits(x), Scalar::from_bits(y))
    }
}

/// A wave-driven manipulation of the sprite's pose, scaled by `intensity` and applied
/// around `anchor`.
#[derive(Clone, Copy, Debug, PartialEq, Eq, Structural)]
pub struct SpatialEffect {
    pub phase: Phase,
    pub wave: Wave,
    /// Manipulation code (see [`SpatialKind`]).
    pub manipulation: u32,
    /// Multiplier of the wave's output.
    pub intensity: Scalar,
    /// Pivot point.
    pub anchor: Vec2,
}

impl SpatialEffect {
    /// A manipulation of the given code over the whole lifetime, at full intensity,
    /// around the center.
    pub open spec fn spec_of(manipulation: u32, wave: Wave) -> SpatialEffect {
        SpatialEffect {
            phase: Phase::spec_full(),
            wave,
            manipulation,
            intensity: Scalar::of(ONE_BITS),
            anchor: Anchor::Center.point(),
        }
    }

    /// The unused slot: full window, all-zero wave, code 0, zero intensity and anchor.
    pub open spec fn spec_default() -> SpatialEffect {
        SpatialEffect {
            phase: Phase::spec_full(),
            wave: Wave::spec_default(),
            manipulation: 0,
            intensity: Scalar::of(ZERO_BITS),
            anchor: Vec2::of(ZERO_BITS, ZERO_BITS),
        }
    }

    fn of_kind(kind: SpatialKind, wave: Wave) -> (r: SpatialEffect)
        ensures
            r == SpatialEffect::spec_of(kind.code(), wave),
    {
        SpatialEffect {
            phase: Phase::full(),
            wave,
            manipulation: kind.to_u32(),
            intensity: Scalar::one(),
            anchor: Anchor::Center.to_vec2(),
        }
    }

    pub fn disabled() -> (r: SpatialEffect)
        ensures
            r == SpatialEffect::spec_default(),
    {
        SpatialEffect {
            phase: Phase::full(),
            wave: Wave::default(),
            manipulation: 0,
            intensity: Scalar::zero(),
            anchor: Vec2::zero(),
        }
    }

    pub fn offset_x(wave: Wave) -> (r: SpatialEffect)
        ensures
            r == SpatialEffect::spec_of(0, wave),
    {
        SpatialEffect::of_kind(SpatialKind::OffsetX, wave)
    }

    pub fn offset_y(wave: Wave) -> (r: SpatialEffect)
        ensures
            r == SpatialEffect::spec_of(1, wave),
    {
        SpatialEffect::of_kind(SpatialKind::OffsetY, wave)
    }

    pub fn scale_x(wave: Wave) -> (r: SpatialEffect)
        ensures
            r == SpatialEffect::spec_of(2, wave),
    {
        SpatialEffect::of_kind(SpatialKind::ScaleX, wave)
    }

    pub fn scale_y(wave: Wave) -> (r: SpatialEffect)
        ensures
            r == SpatialEffect::spec_of(3, wave),
    {
        SpatialEffect::of_kind(SpatialKind::ScaleY, wave)
    }

    pub fn rotation(wave: Wave) -> (r: SpatialEffect)
        ensures
            r == SpatialEffect::spec_of(4, wave),
    {
        SpatialEffect::of_kind(SpatialKind::Rotation, wave)
    }

    pub fn skew_x(wave: Wave) -> (r: SpatialEffect)
        ensures
            r == SpatialEffect::spec_of(5, wave),
    {
        SpatialEffect::of_kind(SpatialKind::SkewX, wave)
    }

    pub fn skew_y(wave: Wave) -> (r: SpatialEffect)
        ensures
            r == SpatialEffect::spec_of(6, wave),
    {
        SpatialEffect::of_kind(SpatialKind::SkewY, wave)
    }

    /// Sets the intensity in place and returns the updated effect.
    pub fn with_intensity(&mut self, intensity: Scalar) -> (r: SpatialEffect)
        ensures
            *final(self) == (SpatialEffect { intensity, ..*old(self) }),
            r == *final(self),
    {
        self.intensity = intensity;
        *self
    }

    /// Sets the anchor in place and returns the updated effect.
    pub fn with_anchor(&mut self, anchor: Vec2) -> (r: SpatialEffect)
        ensures
            *final(self) == (SpatialEffect { anchor, ..*old(self) }),
            r == *final(self),
    {
        self.anchor = anchor;
        *self
    }

    /// The manipulation `kind` driven by a constant wave of `unit` (for a rotation,
    /// an angle in radians).
    pub fn from(kind: SpatialKind, unit: Scalar) -> (r: SpatialEffect)
        ensures
            r == SpatialEffect::spec_of(kind.code(), Wave::spec_constant(unit)),
    {
        SpatialEffect::of_kind(kind, Wave::constant(unit))
    }

    /// Sets the window in place and returns the updated effect.
    pub fn with_phase(&mut self, start: Scalar, end: Scalar) -> (r: SpatialEffect)
        ensures
            *final(self) == (SpatialEffect { phase: Phase { start, end }, ..*old(self) }),
            r == *final(self),
    {
        self.phase = Phase::new(start, end);
        *self
    }
}

impl Default for SpatialEffect {
    fn default() -> (r: SpatialEffect)
        ensures
            r == SpatialEffect::spec_default(),
    {
        SpatialEffect::disabled()
    }
}

/// Sets the intensity of the builder's last spatial sub-effect.
#[derive(Clone, Copy, Debug, PartialEq, Eq, Structural)]
pub struct Intensity(pub Scalar);

} // verus!
