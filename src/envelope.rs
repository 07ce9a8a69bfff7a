//! Attack/hold/release envelopes that shape a wave's amplitude or frequency.
use vstd::prelude::*;

use crate::scalar::{Scalar, ZERO_BITS};

verus! {

/// How the attack or the release of an envelope is curved.
#[derive(Clone, Copy, Debug, PartialEq, Eq, Structural)]
pub enum GrowthMode {
    /// No curvature: the segment is a straight ramp.
    Linear,
    /// Exponential curvature.
    Exponential,
}

impl GrowthMode {
    /// The code the shader reads for this mode.
    pub open spec fn code(self) -> u32 {
        match self {
            GrowthMode::Linear => 0,
            GrowthMode::Exponential => 1,
        }
    }

    pub fn to_u32(self) -> (r: u32)
        ensures
            r == self.code(),
    {
        match self {
            GrowthMode::Linear => 0,
            GrowthMode::Exponential => 1,
        }
    }
}

impl Default for GrowthMode {
    fn default() -> (r: GrowthMode)
        ensures
            r == GrowthMode::Linear,
    {
        GrowthMode::Linear
    }
}

/// Attack, hold and release, each a fraction of the sub-effect's phase window.
///
/// `enabled == 0` makes the envelope a passthrough.
#[derive(Clone, Copy, Debug, PartialEq, Eq, Structural)]
pub struct Envelope {
    /// Rise time, as a fraction of the phase window.
    pub attack: Scalar,
    /// Time held at the peak.
    pub hold: Scalar,
    /// Fall time.
    pub release: Scalar,
    /// Curvature of the attack (see [`GrowthMode`]).
    pub growth_mode: u32,
    /// Strength of the attack's curvature.
    pub growth: Scalar,
    /// 1 when the envelope applies, 0 for a passthrough.
    pub enabled: u32,
    /// Curvature of the release (see [`GrowthMode`]).
    pub decay_mode: u32,
    /// Strength of the release's curvature, stored negated.
    pub decay: Scalar,
}

impl Envelope {
    pub open spec fn spec_new(attack: Scalar, hold: Scalar, release: Scalar) -> Envelope {
        Envelope {
            attack,
            hold,
            release,
            growth_mode: 0,
            growth: Scalar::of(ZERO_BITS),
            enabled: 1,
            decay_mode: 0,
            decay: Scalar::of(ZERO_BITS),
        }
    }

    pub open spec fn spec_disabled() -> Envelope {
        Envelope {
            attack: Scalar::of(ZERO_BITS),
            hold: Scalar::of(ZERO_BITS),
            release: Scalar::of(ZERO_BITS),
            growth_mode: 0,
            growth: Scalar::of(ZERO_BITS),
            enabled: 0,
            decay_mode: 0,
            decay: Scalar::of(ZERO_BITS),
        }
    }

    /// An enabled envelope with linear attack and release.
    pub fn new(attack: Scalar, hold: Scalar, release: Scalar) -> (r: Envelope)
        ensures
            r == Envelope::spec_new(attack, hold, release),
    {
        Envelope {
            attack,
            hold,
            release,
            growth_mode: GrowthMode::Linear.to_u32(),
            growth: Scalar::zero(),
            enabled: 1,
            decay_mode: GrowthMode::Linear.to_u32(),
            decay: Scalar::zero(),
        }
    }

    /// The passthrough envelope.
    pub fn disabled() -> (r: Envelope)
        ensures
            r == Envelope::spec_disabled(),
    {
        Envelope {
            attack: Scalar::zero(),
            hold: Scalar::zero(),
            release: Scalar::zero(),
            growth_mode: GrowthMode::Linear.to_u32(),
            growth: Scalar::zero(),
            enabled: 0,
            decay_mode: GrowthMode::Linear.to_u32(),
            decay: Scalar::zero(),
        }
    }

    /// A modifier that sets the amplitude envelope of the builder's last sub-effect.
    pub fn amplitude(attack: Scalar, hold: Scalar, release: Scalar) -> (r: AmplitudeEnvelope)
        ensures
            r.0 == Envelope::spec_new(attack, hold, release),
    {
        AmplitudeEnvelope(Envelope::new(attack, hold, release))
    }

    /// A modifier that sets the frequency envelope of the builder's last sub-effect.
    pub fn frequency(attack: Scalar, hold: Scalar, release: Scalar) -> (r: FrequencyEnvelope)
        ensures
            r.0 == Envelope::spec_new(attack, hold, release),
    {
        FrequencyEnvelope(Envelope::new(attack, hold, release))
    }

    pub open spec fn spec_with_ease_in(self, strength: Scalar) -> Envelope {
        Envelope { growth_mode: 1, growth: strength, ..self }
    }

    pub open spec fn spec_with_ease_out(self, strength: Scalar) -> Envelope {
        Envelope { decay_mode: 1, decay: strength.negated(), ..self }
    }

    /// Curves the attack exponentially with the given strength.
    pub fn with_ease_in(self, strength: Scalar) -> (r: Envelope)
        ensures
            r == self.spec_with_ease_in(strength),
    {
        Envelope { growth_mode: GrowthMode::Exponential.to_u32(), growth: strength, ..self }
    }

    /// Curves the release exponentially; the strength is stored negated.
    pub fn with_ease_out(self, strength: Scalar) -> (r: Envelope)
        ensures
            r == self.spec_with_ease_out(strength),
    {
        Envelope { decay_mode: GrowthMode::Exponential.to_u32(), decay: strength.neg(), ..self }
    }
}

impl Default for Envelope {
    fn default() -> (r: Envelope)
        ensures
            r == Envelope::spec_disabled(),
    {
        Envelope::disabled()
    }
}

/// An envelope aimed at a wave's amplitude; a builder modifier.
#[derive(Clone, Copy, Debug, PartialEq, Eq, Structural)]
pub struct AmplitudeEnvelope(pub Envelope);

impl AmplitudeEnvelope {
    pub fn new(attack: Scalar, hold: Scalar, release: Scalar) -> (r: AmplitudeEnvelope)
        ensures
            r.0 == Envelope::spec_new(attack, hold, release),
    {
        AmplitudeEnvelope(Envelope::new(attack, hold, release))
    }

    pub fn with_ease_in(self, strength: Scalar) -> (r: AmplitudeEnvelope)
        ensures
            r.0 == self.0.spec_with_ease_in(strength),
    {
        AmplitudeEnvelope(self.0.with_ease_in(strength))
    }

    pub fn with_ease_out(self, strength: Scalar) -> (r: AmplitudeEnvelope)
        ensures
            r.0 == self.0.spec_with_ease_out(strength),
    {
        AmplitudeEnvelope(self.0.with_ease_out(strength))
    }
}

/// An envelope aimed at a wave's frequency; a builder modifier.
#[derive(Clone, Copy, Debug, PartialEq, Eq, Structural)]
pub struct FrequencyEnvelope(pub Envelope);

impl FrequencyEnvelope {
    pub fn new(attack: Scalar, hold: Scalar, release: Scalar) -> (r: FrequencyEnvelope)
        ensures
            r.0 == Envelope::spec_new(attack, hold, release),
    {
        FrequencyEnvelope(Envelope::new(attack, hold, release))
    }

    pub fn with_ease_in(self, strength: Scalar) -> (r: FrequencyEnvelope)
        ensures
            r.0 == self.0.spec_with_ease_in(strength),
    {
        FrequencyEnvelope(self.0.with_ease_in(strength))
    }

    pub fn with_ease_out(self, strength: Scalar) -> (r: FrequencyEnvelope)
        ensures
            r.0 == self.0.spec_with_ease_out(strength),
    {
        FrequencyEnvelope(self.0.with_ease_out(strength))
    }
}

} // verus!
