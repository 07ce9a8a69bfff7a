//! The window of an effect's lifetime during which a sub-effect is active.
use vstd::prelude::*;

use crate::scalar::{Scalar, HALF_BITS, ONE_BITS, ZERO_BITS};

verus! {

/// Start and end of a sub-effect's window, as fractions of the effect's lifetime.
#[derive(Clone, Copy, Debug, PartialEq, Eq, Structural)]
pub struct Phase {
    pub start: Scalar,
    pub end: Scalar,
}

impl Phase {
    pub open spec fn of(start: u32, end: u32) -> Phase {
        Phase { start: Scalar::of(start), end: Scalar::of(end) }
    }

    /// The whole lifetime, `0.0..1.0`.
    pub open spec fn spec_full() -> Phase {
        Phase::of(ZERO_BITS, ONE_BITS)
    }

    pub fn new(start: Scalar, end: Scalar) -> (r: Phase)
        ensures
            r == (Phase { start, end }),
    {
        Phase { start, end }
    }

    pub fn full() -> (r: Phase)
        ensures
            r == Phase::spec_full(),
    {
        Phase { start: Scalar::zero(), end: Scalar::one() }
    }

    pub fn first_half() -> (r: Phase)
        ensures
            r == Phase::of(ZERO_BITS, HALF_BITS),
    {
        Phase { start: Scalar::zero(), end: Scalar::from_bits(HALF_BITS) }
    }

    pub fn second_half() -> (r: Phase)
        ensures
            r == Phase::of(HALF_BITS, ONE_BITS),
    {
        Phase { start: Scalar::from_bits(HALF_BITS), end: Scalar::one() }
    }

    /// From `time` to the end of the lifetime.
    pub fn start(time: Scalar) -> (r: Phase)
        ensures
            r == (Phase { start: time, end: Scalar::of(ONE_BITS) }),
    {
        Phase { start: time, end: Scalar::one() }
    }

    /// From the beginning of the lifetime to `time`.
    pub fn end(time: Scalar) -> (r: Phase)
        ensures
            r == (Phase { start: Scalar::of(ZERO_BITS), end: time }),
    {
        Phase { start: Scalar::zero(), end: time }
    }
}

impl Default for Phase {
    fn default() -> (r: Phase)
        ensures
            r == Phase::spec_full(),
    {
        Phase::full()
    }
}

} // verus!
