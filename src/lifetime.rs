//! Master timing of an effect.
use vstd::prelude::*;

use crate::scalar::{Scalar, ZERO_BITS};

verus! {

/// Whether an effect is live, whether it loops, when it started and how long it lasts
/// (a loop's period). A disabled lifetime marks a free slot.
#[derive(Clone, Copy, Debug, PartialEq, Eq, Structural)]
pub struct Lifetime {
    /// 1 when the effect is live, 0 when it is not.
    pub enabled: u32,
    /// 1 for a looping effect, 0 for a one-shot.
    pub looping: u32,
    /// Clock time at which the effect started, in seconds.
    pub start_time: Scalar,
    /// Duration of a one-shot, or period of a loop, in seconds.
    pub duration: Scalar,
}

impl Lifetime {
    pub open spec fn spec_disabled() -> Lifetime {
        Lifetime {
            enabled: 0,
            looping: 0,
            start_time: Scalar::of(ZERO_BITS),
            duration: Scalar::of(ZERO_BITS),
        }
    }

    /// Flips the enabled flag.
    pub fn toggle(&mut self)
        requires
            old(self).enabled <= 1,
        ensures
            *final(self) == (Lifetime { enabled: (1 - old(self).enabled) as u32, ..*old(self) }),
    {
        self.enabled = 1 - self.enabled;
    }

    /// A live effect that plays once, from `now` for `duration` seconds.
    pub fn one_shot(now: Scalar, duration: Scalar) -> (r: Lifetime)
        ensures
            r == (Lifetime { enabled: 1, looping: 0, start_time: now, duration }),
    {
        Lifetime { enabled: 1, looping: 0, start_time: now, duration }
    }

    /// A live effect that repeats every `period` seconds from `now`.
    pub fn looping(now: Scalar, period: Scalar) -> (r: Lifetime)
        ensures
            r == (Lifetime { enabled: 1, looping: 1, start_time: now, duration: period }),
    {
        Lifetime { enabled: 1, looping: 1, start_time: now, duration: period }
    }

    pub fn disabled() -> (r: Lifetime)
        ensures
            r == Lifetime::spec_disabled(),
    {
        Lifetime { enabled: 0, looping: 0, start_time: Scalar::zero(), duration: Scalar::zero() }
    }
}

impl Default for Lifetime {
    fn default() -> (r: Lifetime)
        ensures
            r == Lifetime::spec_disabled(),
    {
        Lifetime::disabled()
    }
}

} // verus!
