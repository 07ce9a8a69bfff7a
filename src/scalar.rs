//! Scalars and small vectors, held as IEEE-754 single-precision bit patterns.
use vstd::prelude::*;

verus! {

/// Bit pattern of `0.0`.
pub const ZERO_BITS: u32 = 0;

/// Bit pattern of `0.25`.
pub const QUARTER_BITS: u32 = 0x3E80_0000;

/// Bit pattern of `0.5`.
pub const HALF_BITS: u32 = 0x3F00_0000;

/// Bit pattern of `1.0`.
pub const ONE_BITS: u32 = 0x3F80_0000;

/// Bit pattern of `2.0`.
pub const TWO_BITS: u32 = 0x4000_0000;

/// The sign bit of a single-precision value.
pub const SIGN_BIT: u32 = 0x8000_0000;

/// A single-precision value carried as its bit pattern.
#[derive(Clone, Copy, Debug, PartialEq, Eq, Structural)]
pub struct Scalar {
    pub bits: u32,
}

impl Scalar {
    pub open spec fn of(bits: u32) -> Scalar {
        Scalar { bits }
    }

    /// The scalar whose bit pattern is `bits`.
    pub fn from_bits(bits: u32) -> (r: Scalar)
        ensures
            r == Scalar::of(bits),
    {
        Scalar { bits }
    }

    /// The bit pattern of this scalar.
    pub fn to_bits(self) -> (r: u32)
        ensures
            r == self.bits,
    {
        self.bits
    }

    /// `0.0`.
    pub fn zero() -> (r: Scalar)
        ensures
            r == Scalar::of(ZERO_BITS),
    {
        Scalar { bits: ZERO_BITS }
    }

    /// `1.0`.
    pub fn one() -> (r: Scalar)
        ensures
            r == Scalar::of(ONE_BITS),
    {
        Scalar { bits: ONE_BITS }
    }

    /// The spec of [`Scalar::neg`]: the same value with the sign bit flipped.
    pub open spec fn negated(self) -> Scalar {
        Scalar { bits: self.bits ^ SIGN_BIT }
    }

    /// Negation, which for IEEE-754 values flips the sign bit and nothing else.
    pub fn neg(self) -> (r: Scalar)
        ensures
            r == self.negated(),
    {
        Scalar { bits: self.bits ^ SIGN_BIT }
    }
}

/// A pair of scalars.
#[derive(Clone, Copy, Debug, PartialEq, Eq, Structural)]
pub struct Vec2 {
    pub x: Scalar,
    pub y: Scalar,
}

impl Vec2 {
    pub open spec fn of(x: u32, y: u32) -> Vec2 {
        Vec2 { x: Scalar::of(x), y: Scalar::of(y) }
    }

    pub fn new(x: Scalar, y: Scalar) -> (r: Vec2)
        ensures
            r.x == x,
            r.y == y,
    {
        Vec2 { x, y }
    }

    /// Both components `0.0`.
    pub fn zero() -> (r: Vec2)
        ensures
            r == Vec2::of(ZERO_BITS, ZERO_BITS),
    {
        Vec2 { x: Scalar::zero(), y: Scalar::zero() }
    }
}

/// Four scalars; a color's red, green, blue and a fourth channel.
#[derive(Clone, Copy, Debug, PartialEq, Eq, Structural)]
pub struct Vec4 {
    pub x: Scalar,
    pub y: Scalar,
    pub z: Scalar,
    pub w: Scalar,
}

impl Vec4 {
    pub fn new(x: Scalar, y: Scalar, z: Scalar, w: Scalar) -> (r: Vec4)
        ensures
            r == (Vec4 { x, y, z, w }),
    {
        Vec4 { x, y, z, w }
    }

    /// All four components `0.0`.
    pub fn zero() -> (r: Vec4)
        ensures
            r == (Vec4 {
                x: Scalar::of(ZERO_BITS),
                y: Scalar::of(ZERO_BITS),
                z: Scalar::of(ZERO_BITS),
                w: Scalar::of(ZERO_BITS),
            }),
    {
        Vec4 { x: Scalar::zero(), y: Scalar::zero(), z: Scalar::zero(), w: Scalar::zero() }
    }
}

} // verus!
