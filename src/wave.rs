//! Waves: the oscillators, ramps and constants that drive every sub-effect.
use vstd::prelude::*;

use crate::envelope::Envelope;
use crate::scalar::{Scalar, HALF_BITS, QUARTER_BITS, ZERO_BITS};

verus! {

/// The shape of a wave. Sine and triangle peak at their phase; square and saw start
/// their ramp there.
#[derive(Clone, Copy, Debug, PartialEq, Eq, Structural)]
pub enum WaveKind {
    Sine,
    Square,
    Triangle,
    Saw,
    Constant,
}

impl WaveKind {
    /// The code the shader reads for this shape.
    pub open spec fn code(self) -> u32 {
        match self {
            WaveKind::Sine => 0,
            WaveKind::Square => 1,
            WaveKind::Triangle => 2,
            WaveKind::Saw => 3,
            WaveKind::Constant => 4,
        }
    }

    pub fn to_u32(self) -> (r: u32)
        ensures
            r == self.code(),
    {
        match self {
            WaveKind::Sine => 0,
            WaveKind::Square => 1,
            WaveKind::Triangle => 2,
            WaveKind::Saw => 3,
            WaveKind::Constant => 4,
        }
    }
}

impl Default for WaveKind {
    fn default() -> (r: WaveKind)
        ensures
            r == WaveKind::Constant,
    {
        WaveKind::Constant
    }
}

/// The phase at which a wave of the given shape code sits at its bias: a quarter
/// cycle for the oscillators (and anything unknown), half a cycle for the ramps.
pub open spec fn center_phase_of(kind: u32) -> Scalar {
    if kind == 1 || kind == 3 {
        Scalar::of(HALF_BITS)
    } else {
        Scalar::of(QUARTER_BITS)
    }
}

/// A wave: shape code, frequency (cycles per phase window), amplitude, bias, starting
/// phase, and envelopes on amplitude and frequency.
#[derive(Clone, Copy, Debug, PartialEq, Eq, Structural)]
pub struct Wave {
    /// Shape code (see [`WaveKind`]).
    pub kind: u32,
    pub freq: Scalar,
    pub amp: Scalar,
    pub bias: Scalar,
    pub phase: Scalar,
    pub amp_envelope: Envelope,
    pub freq_envelope: Envelope,
}

impl Wave {
    pub open spec fn spec_new(kind: u32, freq: Scalar, amp: Scalar, bias: Scalar, phase: Scalar) -> Wave {
        Wave {
            kind,
            freq,
            amp,
            bias,
            phase,
            amp_envelope: Envelope::spec_disabled(),
            freq_envelope: Envelope::spec_disabled(),
        }
    }

    /// The constant wave of the given value.
    pub open spec fn spec_constant(value: Scalar) -> Wave {
        Wave::spec_new(4, Scalar::of(ZERO_BITS), value, Scalar::of(ZERO_BITS), Scalar::of(ZERO_BITS))
    }

    /// The all-zero wave: shape code 0, every scalar `0.0`, no envelopes.
    pub open spec fn spec_default() -> Wave {
        Wave::spec_new(
            0,
            Scalar::of(ZERO_BITS),
            Scalar::of(ZERO_BITS),
            Scalar::of(ZERO_BITS),
            Scalar::of(ZERO_BITS),
        )
    }

    /// A wave with no envelopes.
    pub fn new(kind: u32, freq: Scalar, amp: Scalar, bias: Scalar, phase: Scalar) -> (r: Wave)
        ensures
            r == Wave::spec_new(kind, freq, amp, bias, phase),
    {
        Wave {
            kind,
            freq,
            amp,
            bias,
            phase,
            amp_envelope: Envelope::disabled(),
            freq_envelope: Envelope::disabled(),
        }
    }

    pub fn sine(freq: Scalar, amp: Scalar, bias: Scalar) -> (r: Wave)
        ensures
            r == Wave::spec_new(0, freq, amp, bias, Scalar::of(ZERO_BITS)),
    {
        Wave::new(WaveKind::Sine.to_u32(), freq, amp, bias, Scalar::zero())
    }

    pub fn square(freq: Scalar, amp: Scalar, bias: Scalar) -> (r: Wave)
        ensures
            r == Wave::spec_new(1, freq, amp, bias, Scalar::of(ZERO_BITS)),
    {
        Wave::new(WaveKind::Square.to_u32(), freq, amp, bias, Scalar::zero())
    }

    pub fn triangle(freq: Scalar, amp: Scalar, bias: Scalar) -> (r: Wave)
        ensures
            r == Wave::spec_new(2, freq, amp, bias, Scalar::of(ZERO_BITS)),
    {
        Wave::new(WaveKind::Triangle.to_u32(), freq, amp, bias, Scalar::zero())
    }

    pub fn saw(freq: Scalar, amp: Scalar, bias: Scalar) -> (r: Wave)
        ensures
            r == Wave::spec_new(3, freq, amp, bias, Scalar::of(ZERO_BITS)),
    {
        Wave::new(WaveKind::Saw.to_u32(), freq, amp, bias, Scalar::zero())
    }

    /// A wave that holds `value`: the value is the amplitude, frequency and bias are zero.
    pub fn constant(value: Scalar) -> (r: Wave)
        ensures
            r == Wave::spec_constant(value),
    {
        Wave::new(WaveKind::Constant.to_u32(), Scalar::zero(), value, Scalar::zero(), Scalar::zero())
    }

    /// Replaces the amplitude envelope by an enabled, linear one.
    pub fn with_amp_envelope(self, attack: Scalar, hold: Scalar, release: Scalar) -> (r: Wave)
        ensures
            r == (Wave { amp_envelope: Envelope::spec_new(attack, hold, release), ..self }),
    {
        Wave { amp_envelope: Envelope::new(attack, hold, release), ..self }
    }

    /// Curves the attack of the amplitude envelope.
    pub fn with_amp_envelope_exponential_growth(self, strength: Scalar) -> (r: Wave)
        ensures
            r == (Wave { amp_envelope: self.amp_envelope.spec_with_ease_in(strength), ..self }),
    {
        Wave { amp_envelope: self.amp_envelope.with_ease_in(strength), ..self }
    }

    /// Curves the release of the amplitude envelope.
    pub fn with_amp_envelope_exponential_decay(self, strength: Scalar) -> (r: Wave)
        ensures
            r == (Wave { amp_envelope: self.amp_envelope.spec_with_ease_out(strength), ..self }),
    {
        Wave { amp_envelope: self.amp_envelope.with_ease_out(strength), ..self }
    }

    /// Replaces the frequency envelope by an enabled, linear one.
    pub fn with_freq_envelope(self, attack: Scalar, hold: Scalar, release: Scalar) -> (r: Wave)
        ensures
            r == (Wave { freq_envelope: Envelope::spec_new(attack, hold, release), ..self }),
    {
        Wave { freq_envelope: Envelope::new(attack, hold, release), ..self }
    }

    /// Curves the attack of the frequency envelope.
    pub fn with_freq_envelope_exponential_growth(self, strength: Scalar) -> (r: Wave)
        ensures
            r == (Wave { freq_envelope: self.freq_envelope.spec_with_ease_in(strength), ..self }),
    {
        Wave { freq_envelope: self.freq_envelope.with_ease_in(strength), ..self }
    }

    /// Curves the release of the frequency envelope.
    pub fn with_freq_envelope_exponential_decay(self, strength: Scalar) -> (r: Wave)
        ensures
            r == (Wave { freq_envelope: self.freq_envelope.spec_with_ease_out(strength), ..self }),
    {
        Wave { freq_envelope: self.freq_envelope.with_ease_out(strength), ..self }
    }

    pub fn with_bias(self, bias: Scalar) -> (r: Wave)
        ensures
            r == (Wave { bias, ..self }),
    {
        Wave { bias, ..self }
    }

    pub fn with_kind(self, kind: u32) -> (r: Wave)
        ensures
            r == (Wave { kind, ..self }),
    {
        Wave { kind, ..self }
    }

    pub fn with_phase(self, phase: Scalar) -> (r: Wave)
        ensures
            r == (Wave { phase, ..self }),
    {
        Wave { phase, ..self }
    }

    /// The phase at which this wave's shape sits at its bias.
    fn center_phase_value(kind: u32) -> (r: Scalar)
        ensures
            r == center_phase_of(kind),
    {
        if kind == WaveKind::Square.to_u32() || kind == WaveKind::Saw.to_u32() {
            Scalar::from_bits(HALF_BITS)
        } else {
            Scalar::from_bits(QUARTER_BITS)
        }
    }

    /// Starts the wave from its bias.
    pub fn with_center_phase(self) -> (r: Wave)
        ensures
            r == (Wave { phase: center_phase_of(self.kind), ..self }),
    {
        Wave { phase: Wave::center_phase_value(self.kind), ..self }
    }

    /// Starts the wave from its bias, in place.
    pub fn center_phase(&mut self)
        ensures
            *final(self) == (Wave { phase: center_phase_of(old(self).kind), ..*old(self) }),
    {
        self.phase = Wave::center_phase_value(self.kind);
    }
}

impl Default for Wave {
    fn default() -> (r: Wave)
        ensures
            r == Wave::spec_default(),
    {
        Wave::new(0, Scalar::zero(), Scalar::zero(), Scalar::zero(), Scalar::zero())
    }
}

/// Sets the starting phase of the builder's last sub-effect's wave.
#[derive(Clone, Copy, Debug, PartialEq, Eq, Structural)]
pub struct WavePhase(pub Scalar);

impl WavePhase {
    pub fn new(phase: Scalar) -> (r: WavePhase)
        ensures
            r.0 == phase,
    {
        WavePhase(phase)
    }

    /// The modifier that starts the last sub-effect's wave from its bias.
    pub fn center() -> (r: WavePhaseCenter) {
        WavePhaseCenter
    }
}

/// Starts the builder's last sub-effect's wave from its bias.
#[derive(Clone, Copy, Debug, PartialEq, Eq, Structural)]
pub struct WavePhaseCenter;

/// Sets the bias of the builder's last sub-effect's wave.
#[derive(Clone, Copy, Debug, PartialEq, Eq, Structural)]
pub struct Bias(pub Scalar);

impl Bias {
    pub fn new(bias: Scalar) -> (r: Bias)
        ensures
            r.0 == bias,
    {
        Bias(bias)
    }
}

/// Sets the amplitude of the builder's last sub-effect's wave.
#[derive(Clone, Copy, Debug, PartialEq, Eq, Structural)]
pub struct Amplitude(pub Scalar);

/// Sets the frequency of the builder's last sub-effect's wave.
#[derive(Clone, Copy, Debug, PartialEq, Eq, Structural)]
pub struct Frequency(pub Scalar);

} // verus!
