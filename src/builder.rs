//! Fluent construction of effects.
//!
//! The builder holds up to three color sub-effects, one alpha sub-effect and one spatial
//! sub-effect per manipulation kind, and remembers which one was touched last so that
//! [`EffectBuilder::with`] can adjust it. Misuse never fails the chain: a modifier with
//! nothing suitable to act on, or a color beyond capacity, changes nothing.
use vstd::prelude::*;

use crate::alpha::AlphaEffect;
use crate::color::{BlendMode, ColorEffect, CompositeMode};
use crate::effect_stack::Effect;
use crate::envelope::{AmplitudeEnvelope, FrequencyEnvelope};
use crate::lifetime::Lifetime;
use crate::phase::Phase;
use crate::scalar::{Scalar, Vec4, ONE_BITS, ZERO_BITS};
use crate::spatial::{Anchor, Intensity, SpatialEffect, SpatialKind, SPATIAL_KINDS};
use crate::wave::{
    center_phase_of, Amplitude, Bias, Frequency, Wave, WaveKind, WavePhase, WavePhaseCenter,
};
use crate::{MAX_COLOR_FX, MAX_SPATIAL_FX};

verus! {

/// The sub-effect that was added last.
#[derive(Clone, Copy, Debug, PartialEq, Eq, Structural)]
pub enum LastEffect {
    /// The color slot of that index.
    Color(usize),
    Alpha,
    /// The spatial slot of that kind.
    Spatial(SpatialKind),
}

/// The builder's state as mathematical values.
#[verifier::ext_equal]
pub struct BuilderModel {
    pub lifetime: Lifetime,
    pub colors: Seq<Option<ColorEffect>>,
    pub alpha: Option<AlphaEffect>,
    pub spatial: Seq<Option<SpatialEffect>>,
    pub last_effect: Option<LastEffect>,
}

/// The values that `s` holds, in order.
pub open spec fn present<T>(s: Seq<Option<T>>) -> Seq<T>
    decreases s.len(),
{
    if s.len() == 0 {
        Seq::empty()
    } else {
        let rest = present(s.drop_last());
        match s.last() {
            Some(v) => rest.push(v),
            None => rest,
        }
    }
}

/// The first empty position of `s` at or after `i`, or `s.len()` when there is none.
pub open spec fn first_empty_from<T>(s: Seq<Option<T>>, i: int) -> int
    decreases s.len() - i,
{
    if i < 0 || i >= s.len() {
        s.len() as int
    } else if s[i] is None {
        i
    } else {
        first_empty_from(s, i + 1)
    }
}

impl BuilderModel {
    /// The color sub-effect in slot `i`, if the slot exists and is filled.
    pub open spec fn color_at(self, i: usize) -> Option<ColorEffect> {
        if i < MAX_COLOR_FX {
            self.colors[i as int]
        } else {
            None
        }
    }

    /// The last-touched color sub-effect, if the last touch was a color and it exists.
    pub open spec fn last_color(self) -> Option<ColorEffect> {
        match self.last_effect {
            Some(LastEffect::Color(i)) => self.color_at(i),
            _ => None,
        }
    }

    /// The last-touched spatial sub-effect, if the last touch was a spatial one.
    pub open spec fn last_spatial(self) -> Option<SpatialEffect> {
        match self.last_effect {
            Some(LastEffect::Spatial(k)) => self.spatial[k.code() as int],
            _ => None,
        }
    }

    /// The wave of the last-touched sub-effect, if it exists.
    pub open spec fn last_wave(self) -> Option<Wave> {
        match self.last_effect {
            Some(LastEffect::Color(i)) => match self.color_at(i) {
                Some(c) => Some(c.wave),
                None => None,
            },
            Some(LastEffect::Alpha) => match self.alpha {
                Some(a) => Some(a.wave),
                None => None,
            },
            Some(LastEffect::Spatial(k)) => match self.spatial[k.code() as int] {
                Some(s) => Some(s.wave),
                None => None,
            },
            None => None,
        }
    }

    /// The last-touched color sub-effect replaced by `c`; unchanged if there is none.
    pub open spec fn set_last_color(self, c: ColorEffect) -> BuilderModel {
        match self.last_effect {
            Some(LastEffect::Color(i)) => if self.color_at(i) is Some {
                BuilderModel { colors: self.colors.update(i as int, Some(c)), ..self }
            } else {
                self
            },
            _ => self,
        }
    }

    /// The last-touched spatial sub-effect replaced by `s`; unchanged if there is none.
    pub open spec fn set_last_spatial(self, s: SpatialEffect) -> BuilderModel {
        match self.last_effect {
            Some(LastEffect::Spatial(k)) => if self.spatial[k.code() as int] is Some {
                BuilderModel { spatial: self.spatial.update(k.code() as int, Some(s)), ..self }
            } else {
                self
            },
            _ => self,
        }
    }

    /// The wave of the last-touched sub-effect replaced by `w`; unchanged if there is none.
    pub open spec fn set_last_wave(self, w: Wave) -> BuilderModel {
        match self.last_effect {
            Some(LastEffect::Color(i)) => match self.color_at(i) {
                Some(c) => BuilderModel {
                    colors: self.colors.update(i as int, Some(ColorEffect { wave: w, ..c })),
                    ..self
                },
                None => self,
            },
            Some(LastEffect::Alpha) => match self.alpha {
                Some(a) => BuilderModel { alpha: Some(AlphaEffect { wave: w, ..a }), ..self },
                None => self,
            },
            Some(LastEffect::Spatial(k)) => match self.spatial[k.code() as int] {
                Some(s) => BuilderModel {
                    spatial: self.spatial.update(k.code() as int, Some(SpatialEffect { wave: w, ..s })),
                    ..self
                },
                None => self,
            },
            None => self,
        }
    }

    /// The window of the last-touched sub-effect replaced by `p`; unchanged if there is none.
    pub open spec fn set_last_phase(self, p: Phase) -> BuilderModel {
        match self.last_effect {
            Some(LastEffect::Color(i)) => match self.color_at(i) {
                Some(c) => BuilderModel {
                    colors: self.colors.update(i as int, Some(ColorEffect { phase: p, ..c })),
                    ..self
                },
                None => self,
            },
            Some(LastEffect::Alpha) => match self.alpha {
                Some(a) => BuilderModel { alpha: Some(AlphaEffect { phase: p, ..a }), ..self },
                None => self,
            },
            Some(LastEffect::Spatial(k)) => match self.spatial[k.code() as int] {
                Some(s) => BuilderModel {
                    spatial: self.spatial.update(k.code() as int, Some(SpatialEffect { phase: p, ..s })),
                    ..self
                },
                None => self,
            },
            None => self,
        }
    }

    /// After `.color(color)`: the first empty color slot filled and touched; unchanged
    /// when all are full.
    pub open spec fn with_color(self, color: Vec4) -> BuilderModel {
        let i = first_empty_from(self.colors, 0);
        if i < MAX_COLOR_FX {
            BuilderModel {
                colors: self.colors.update(
                    i,
                    Some(ColorEffect::spec_new(color, Wave::spec_constant(Scalar::of(ONE_BITS)))),
                ),
                last_effect: Some(LastEffect::Color(i as usize)),
                ..self
            }
        } else {
            self
        }
    }

    /// After `.alpha(target)`: the alpha slot replaced and touched.
    pub open spec fn with_alpha(self, target: Scalar) -> BuilderModel {
        BuilderModel {
            alpha: Some(AlphaEffect::spec_new(target, Wave::spec_constant(Scalar::of(ONE_BITS)))),
            last_effect: Some(LastEffect::Alpha),
            ..self
        }
    }

    /// After adding the manipulation `kind` of value `unit`: that kind's slot replaced
    /// by a constant wave of the value, and touched.
    pub open spec fn with_spatial(self, kind: SpatialKind, unit: Scalar) -> BuilderModel {
        BuilderModel {
            spatial: self.spatial.update(
                kind.code() as int,
                Some(SpatialEffect::spec_of(kind.code(), Wave::spec_constant(unit))),
            ),
            last_effect: Some(LastEffect::Spatial(kind)),
            ..self
        }
    }
}

/// A change to the builder's last-touched sub-effect.
#[derive(Clone, Copy, Debug, PartialEq, Eq, Structural)]
pub enum EffectModifier {
    /// Replaces the wave.
    Wave(Wave),
    /// Sets the wave's shape.
    WaveKind(WaveKind),
    /// Sets the wave's starting phase.
    WavePhase(WavePhase),
    /// Starts the wave from its bias.
    WavePhaseCenter(WavePhaseCenter),
    /// Sets the wave's bias.
    Bias(Bias),
    /// Sets the wave's amplitude.
    Amplitude(Amplitude),
    /// Sets the wave's frequency.
    Frequency(Frequency),
    /// Sets the sub-effect's window.
    Phase(Phase),
    /// Sets the wave's amplitude envelope.
    AmplitudeEnvelope(AmplitudeEnvelope),
    /// Sets the wave's frequency envelope.
    FrequencyEnvelope(FrequencyEnvelope),
    /// Sets a spatial sub-effect's pivot.
    Anchor(Anchor),
    /// Sets a spatial sub-effect's intensity.
    Intensity(Intensity),
    /// Sets a color sub-effect's blend mode.
    BlendMode(BlendMode),
    /// Sets a color sub-effect's composite mode.
    CompositeMode(CompositeMode),
}

impl EffectModifier {
    /// Whether the modifier acts on the last sub-effect's wave.
    pub open spec fn acts_on_wave(self) -> bool {
        match self {
            EffectModifier::Wave(_) | EffectModifier::WaveKind(_) | EffectModifier::WavePhase(_)
            | EffectModifier::WavePhaseCenter(_) | EffectModifier::Bias(_)
            | EffectModifier::Amplitude(_) | EffectModifier::Frequency(_)
            | EffectModifier::AmplitudeEnvelope(_) | EffectModifier::FrequencyEnvelope(_) => true,
            _ => false,
        }
    }

    /// `w` as changed by a wave modifier.
    pub open spec fn modified_wave(self, w: Wave) -> Wave {
        match self {
            EffectModifier::Wave(v) => v,
            EffectModifier::WaveKind(k) => Wave { kind: k.code(), ..w },
            EffectModifier::WavePhase(p) => Wave { phase: p.0, ..w },
            EffectModifier::WavePhaseCenter(_) => Wave { phase: center_phase_of(w.kind), ..w },
            EffectModifier::Bias(b) => Wave { bias: b.0, ..w },
            EffectModifier::Amplitude(a) => Wave { amp: a.0, ..w },
            EffectModifier::Frequency(f) => Wave { freq: f.0, ..w },
            EffectModifier::AmplitudeEnvelope(e) => Wave { amp_envelope: e.0, ..w },
            EffectModifier::FrequencyEnvelope(e) => Wave { freq_envelope: e.0, ..w },
            _ => w,
        }
    }

    /// The builder after the modifier: a wave modifier changes the last sub-effect's wave;
    /// a phase, its window; an anchor or intensity, the last spatial sub-effect only; a
    /// blend or composite mode, the last color sub-effect only (the composite mode goes
    /// into the color's fourth channel). With no suitable sub-effect nothing changes.
    pub open spec fn applied_to(self, b: BuilderModel) -> BuilderModel {
        if self.acts_on_wave() {
            match b.last_wave() {
                Some(w) => b.set_last_wave(self.modified_wave(w)),
                None => b,
            }
        } else {
            match self {
                EffectModifier::Phase(p) => b.set_last_phase(p),
                EffectModifier::Anchor(a) => match b.last_spatial() {
                    Some(s) => b.set_last_spatial(SpatialEffect { anchor: a.point(), ..s }),
                    None => b,
                },
                EffectModifier::Intensity(i) => match b.last_spatial() {
                    Some(s) => b.set_last_spatial(SpatialEffect { intensity: i.0, ..s }),
                    None => b,
                },
                EffectModifier::BlendMode(m) => match b.last_color() {
                    Some(c) => b.set_last_color(ColorEffect { blend_mode: m.code(), ..c }),
                    None => b,
                },
                EffectModifier::CompositeMode(m) => match b.last_color() {
                    Some(c) => b.set_last_color(
                        ColorEffect { color: Vec4 { w: m.spec_selector(), ..c.color }, ..c },
                    ),
                    None => b,
                },
                _ => b,
            }
        }
    }

    fn modify_wave(self, w: Wave) -> (r: Wave)
        ensures
            r == self.modified_wave(w),
    {
        match self {
            EffectModifier::Wave(v) => v,
            EffectModifier::WaveKind(k) => w.with_kind(k.to_u32()),
            EffectModifier::WavePhase(p) => w.with_phase(p.0),
            EffectModifier::WavePhaseCenter(_) => w.with_center_phase(),
            EffectModifier::Bias(b) => w.with_bias(b.0),
            EffectModifier::Amplitude(a) => Wave { amp: a.0, ..w },
            EffectModifier::Frequency(f) => Wave { freq: f.0, ..w },
            EffectModifier::AmplitudeEnvelope(e) => Wave { amp_envelope: e.0, ..w },
            EffectModifier::FrequencyEnvelope(e) => Wave { freq_envelope: e.0, ..w },
            _ => w,
        }
    }

    /// Applies the modifier to the builder's last-touched sub-effect.
    pub fn apply(self, builder: &mut EffectBuilder)
        ensures
            final(builder)@ == self.applied_to(old(builder)@),
    {
        match self {
            EffectModifier::Phase(p) => builder.set_last_phase(p),
            EffectModifier::Anchor(a) => {
                if let Some(s) = builder.last_spatial() {
                    builder.set_last_spatial(SpatialEffect { anchor: a.to_vec2(), ..s });
                }
            },
            EffectModifier::Intensity(i) => {
                if let Some(s) = builder.last_spatial() {
                    builder.set_last_spatial(SpatialEffect { intensity: i.0, ..s });
                }
            },
            EffectModifier::BlendMode(m) => {
                if let Some(c) = builder.last_color() {
                    builder.set_last_color(c.with_blend_mode(m));
                }
            },
            EffectModifier::CompositeMode(m) => {
                if let Some(c) = builder.last_color() {
                    builder.set_last_color(
                        ColorEffect { color: Vec4 { w: m.selector(), ..c.color }, ..c },
                    );
                }
            },
            _ => {
                if let Some(w) = builder.last_wave() {
                    builder.set_last_wave(self.modify_wave(w));
                }
            },
        }
    }
}

/// Accumulates sub-effects for one [`Effect`].
#[derive(Clone, Copy, Debug)]
pub struct EffectBuilder {
    pub lifetime: Lifetime,
    pub colors: [Option<ColorEffect>; MAX_COLOR_FX],
    pub alpha: Option<AlphaEffect>,
    /// One slot per manipulation kind, in [`SpatialKind`] order.
    pub spatial: [Option<SpatialEffect>; SPATIAL_KINDS],
    pub last_effect: Option<LastEffect>,
}

impl View for EffectBuilder {
    type V = BuilderModel;

    open spec fn view(&self) -> BuilderModel {
        BuilderModel {
            lifetime: self.lifetime,
            colors: self.colors@,
            alpha: self.alpha,
            spatial: self.spatial@,
            last_effect: self.last_effect,
        }
    }
}

impl EffectBuilder {
    /// No sub-effect and nothing touched, with the given lifetime.
    pub open spec fn is_empty_with(self, lifetime: Lifetime) -> bool {
        &&& self.lifetime == lifetime
        &&& forall|i: int| 0 <= i < MAX_COLOR_FX ==> self.colors[i] is None
        &&& self.alpha is None
        &&& forall|i: int| 0 <= i < SPATIAL_KINDS ==> self.spatial[i] is None
        &&& self.last_effect is None
    }

    fn empty(lifetime: Lifetime) -> (r: EffectBuilder)
        ensures
            r.is_empty_with(lifetime),
    {
        EffectBuilder {
            lifetime,
            colors: [None, None, None],
            alpha: None,
            spatial: [None, None, None, None, None, None, None],
            last_effect: None,
        }
    }

    /// Starts a one-shot effect from `now`, lasting `duration` seconds.
    pub fn one_shot(now: Scalar, duration: Scalar) -> (r: EffectBuilder)
        ensures
            r.is_empty_with(Lifetime { enabled: 1, looping: 0, start_time: now, duration }),
    {
        EffectBuilder::empty(Lifetime::one_shot(now, duration))
    }

    /// Starts a looping effect from `now`, repeating every `period` seconds.
    pub fn looping(now: Scalar, period: Scalar) -> (r: EffectBuilder)
        ensures
            r.is_empty_with(Lifetime { enabled: 1, looping: 1, start_time: now, duration: period }),
    {
        EffectBuilder::empty(Lifetime::looping(now, period))
    }

    /// Adds a color sub-effect (constant wave of `1.0`, lerp, whole lifetime) in the first
    /// empty color slot and touches it. The color's fourth channel selects the composite
    /// mode. With every color slot full, nothing changes.
    pub fn color(self, color: Vec4) -> (r: EffectBuilder)
        ensures
            r@ == self@.with_color(color),
    {
        let mut b = self;
        let ghost s = self.colors@;
        let mut i: usize = 0;
        while i < MAX_COLOR_FX
            invariant
                i <= MAX_COLOR_FX,
                b == self,
                s == self.colors@,
                s.len() == MAX_COLOR_FX,
                first_empty_from(s, 0) == first_empty_from(s, i as int),
            decreases MAX_COLOR_FX - i,
        {
            if b.colors[i].is_none() {
                b.colors[i] = Some(ColorEffect::new(color, Wave::constant(Scalar::one())));
                b.last_effect = Some(LastEffect::Color(i));
                assert(b@ =~= self@.with_color(color));
                return b;
            }
            i = i + 1;
        }
        b
    }

    /// Sets the alpha sub-effect (constant wave of `1.0`, toward `alpha`) and touches it.
    pub fn alpha(self, alpha: Scalar) -> (r: EffectBuilder)
        ensures
            r@ == self@.with_alpha(alpha),
    {
        let mut b = self;
        b.alpha = Some(AlphaEffect::new(alpha, Wave::constant(Scalar::one())));
        b.last_effect = Some(LastEffect::Alpha);
        assert(b@ =~= self@.with_alpha(alpha));
        b
    }

    /// `alpha(0.0)`: makes the sprite invisible.
    pub fn alpha_zero(self) -> (r: EffectBuilder)
        ensures
            r@ == self@.with_alpha(Scalar::of(ZERO_BITS)),
    {
        self.alpha(Scalar::zero())
    }

    /// `alpha(0.0)`: makes the sprite invisible.
    pub fn invisibility(self) -> (r: EffectBuilder)
        ensures
            r@ == self@.with_alpha(Scalar::of(ZERO_BITS)),
    {
        self.alpha(Scalar::zero())
    }

    fn add_spatial(self, kind: SpatialKind, unit: Scalar) -> (r: EffectBuilder)
        ensures
            r@ == self@.with_spatial(kind, unit),
    {
        let mut b = self;
        b.spatial[kind.index()] = Some(SpatialEffect::from(kind, unit));
        b.last_effect = Some(LastEffect::Spatial(kind));
        assert(b@ =~= self@.with_spatial(kind, unit));
        b
    }

    /// Sets the horizontal offset, in pixels, and touches it.
    pub fn offset_x(self, pixels: Scalar) -> (r: EffectBuilder)
        ensures
            r@ == self@.with_spatial(SpatialKind::OffsetX, pixels),
    {
        self.add_spatial(SpatialKind::OffsetX, pixels)
    }

    /// Sets the vertical offset, in pixels, and touches it.
    pub fn offset_y(self, pixels: Scalar) -> (r: EffectBuilder)
        ensures
            r@ == self@.with_spatial(SpatialKind::OffsetY, pixels),
    {
        self.add_spatial(SpatialKind::OffsetY, pixels)
    }

    /// Sets the horizontal scale factor and touches it.
    pub fn scale_x(self, factor: Scalar) -> (r: EffectBuilder)
        ensures
            r@ == self@.with_spatial(SpatialKind::ScaleX, factor),
    {
        self.add_spatial(SpatialKind::ScaleX, factor)
    }

    /// Sets the vertical scale factor and touches it.
    pub fn scale_y(self, factor: Scalar) -> (r: EffectBuilder)
        ensures
            r@ == self@.with_spatial(SpatialKind::ScaleY, factor),
    {
        self.add_spatial(SpatialKind::ScaleY, factor)
    }

    /// Sets the rotation, an angle in radians, and touches it.
    pub fn rotate(self, radians: Scalar) -> (r: EffectBuilder)
        ensures
            r@ == self@.with_spatial(SpatialKind::Rotation, radians),
    {
        self.add_spatial(SpatialKind::Rotation, radians)
    }

    /// Sets the shear along x and touches it.
    pub fn skew_x(self, factor: Scalar) -> (r: EffectBuilder)
        ensures
            r@ == self@.with_spatial(SpatialKind::SkewX, factor),
    {
        self.add_spatial(SpatialKind::SkewX, factor)
    }

    /// Sets the shear along y and touches it.
    pub fn skew_y(self, factor: Scalar) -> (r: EffectBuilder)
        ensures
            r@ == self@.with_spatial(SpatialKind::SkewY, factor),
    {
        self.add_spatial(SpatialKind::SkewY, factor)
    }

    /// Adjusts the last-touched sub-effect with `modifier` (see
    /// [`EffectModifier::applied_to`]).
    pub fn with(self, modifier: EffectModifier) -> (r: EffectBuilder)
        ensures
            r@ == modifier.applied_to(self@),
    {
        let mut b = self;
        modifier.apply(&mut b);
        b
    }

    /// The effect: the builder's lifetime; each color slot's sub-effect or the unused
    /// value; the alpha sub-effect or the no-op one; and the first three present spatial
    /// sub-effects in kind order, the remaining slots unused. Further spatial kinds
    /// are dropped.
    pub fn build(self) -> (r: Effect)
        ensures
            r.lifetime == self.lifetime,
            forall|i: int|
                0 <= i < MAX_COLOR_FX ==> #[trigger] r.color_effects[i] == match self.colors[i] {
                    Some(c) => c,
                    None => ColorEffect::spec_default(),
                },
            r.alpha_effect == match self.alpha {
                Some(a) => a,
                None => AlphaEffect::spec_default(),
            },
            forall|i: int|
                0 <= i < MAX_SPATIAL_FX ==> #[trigger] r.spatial_effects[i] == if i < present(
                    self.spatial@,
                ).len() {
                    present(self.spatial@)[i]
                } else {
                    SpatialEffect::spec_default()
                },
    {
        let mut effect = Effect::with_lifetime(self.lifetime);
        let mut i: usize = 0;
        while i < MAX_COLOR_FX
            invariant
                i <= MAX_COLOR_FX,
                effect.lifetime == self.lifetime,
                forall|j: int|
                    0 <= j < i ==> #[trigger] effect.color_effects[j] == match self.colors[j] {
                        Some(c) => c,
                        None => ColorEffect::spec_default(),
                    },
                forall|j: int| i <= j < MAX_COLOR_FX ==> effect.color_effects[j] == ColorEffect::spec_default(),
                forall|j: int| 0 <= j < MAX_SPATIAL_FX ==> effect.spatial_effects[j] == SpatialEffect::spec_default(),
                effect.alpha_effect == AlphaEffect::spec_default(),
            decreases MAX_COLOR_FX - i,
        {
            if let Some(c) = self.colors[i] {
                effect.color_effects[i] = c;
            }
            i = i + 1;
        }
        if let Some(a) = self.alpha {
            effect.alpha_effect = a;
        }
        let ghost kinds = self.spatial@;
        let mut k: usize = 0;
        let mut n: usize = 0;
        while k < SPATIAL_KINDS
            invariant
                k <= SPATIAL_KINDS,
                kinds == self.spatial@,
                kinds.len() == SPATIAL_KINDS,
                n <= MAX_SPATIAL_FX,
                n as int == if present(kinds.take(k as int)).len() < MAX_SPATIAL_FX {
                    present(kinds.take(k as int)).len() as int
                } else {
                    MAX_SPATIAL_FX as int
                },
                forall|j: int| 0 <= j < n ==> #[trigger] effect.spatial_effects[j] == present(kinds.take(k as int))[j],
                forall|j: int| n <= j < MAX_SPATIAL_FX ==> effect.spatial_effects[j] == SpatialEffect::spec_default(),
                effect.lifetime == self.lifetime,
                forall|j: int|
                    0 <= j < MAX_COLOR_FX ==> #[trigger] effect.color_effects[j] == match self.colors[j] {
                        Some(c) => c,
                        None => ColorEffect::spec_default(),
                    },
                effect.alpha_effect == match self.alpha {
                    Some(a) => a,
                    None => AlphaEffect::spec_default(),
                },
            decreases SPATIAL_KINDS - k,
        {
            proof {
                lemma_present_take_step(kinds, k as int);
            }
            if let Some(s) = self.spatial[k] {
                if n < MAX_SPATIAL_FX {
                    effect.spatial_effects[n] = s;
                    n = n + 1;
                }
            }
            k = k + 1;
        }
        assert(kinds.take(SPATIAL_KINDS as int) =~= kinds);
        effect
    }

    fn last_color(&self) -> (r: Option<ColorEffect>)
        ensures
            r == self@.last_color(),
    {
        match self.last_effect {
            Some(LastEffect::Color(i)) => if i < MAX_COLOR_FX {
                self.colors[i]
            } else {
                None
            },
            _ => None,
        }
    }

    fn last_spatial(&self) -> (r: Option<SpatialEffect>)
        ensures
            r == self@.last_spatial(),
    {
        match self.last_effect {
            Some(LastEffect::Spatial(k)) => self.spatial[k.index()],
            _ => None,
        }
    }

    fn last_wave(&self) -> (r: Option<Wave>)
        ensures
            r == self@.last_wave(),
    {
        match self.last_effect {
            Some(LastEffect::Color(i)) => if i < MAX_COLOR_FX {
                match self.colors[i] {
                    Some(c) => Some(c.wave),
                    None => None,
                }
            } else {
                None
            },
            Some(LastEffect::Alpha) => match self.alpha {
                Some(a) => Some(a.wave),
                None => None,
            },
            Some(LastEffect::Spatial(k)) => match self.spatial[k.index()] {
                Some(s) => Some(s.wave),
                None => None,
            },
            None => None,
        }
    }

    fn set_last_color(&mut self, c: ColorEffect)
        ensures
            final(self)@ == old(self)@.set_last_color(c),
    {
        if let Some(LastEffect::Color(i)) = self.last_effect {
            if i < MAX_COLOR_FX && self.colors[i].is_some() {
                self.colors[i] = Some(c);
            }
        }
        assert(self@ =~= old(self)@.set_last_color(c));
    }

    fn set_last_spatial(&mut self, s: SpatialEffect)
        ensures
            final(self)@ == old(self)@.set_last_spatial(s),
    {
        if let Some(LastEffect::Spatial(k)) = self.last_effect {
            let i = k.index();
            if self.spatial[i].is_some() {
                self.spatial[i] = Some(s);
            }
        }
        assert(self@ =~= old(self)@.set_last_spatial(s));
    }

    fn set_last_wave(&mut self, w: Wave)
        ensures
            final(self)@ == old(self)@.set_last_wave(w),
    {
        match self.last_effect {
            Some(LastEffect::Color(i)) => {
                if i < MAX_COLOR_FX {
                    if let Some(c) = self.colors[i] {
                        self.colors[i] = Some(ColorEffect { wave: w, ..c });
                    }
                }
            },
            Some(LastEffect::Alpha) => {
                if let Some(a) = self.alpha {
                    self.alpha = Some(AlphaEffect { wave: w, ..a });
                }
            },
            Some(LastEffect::Spatial(k)) => {
                let i = k.index();
                if let Some(s) = self.spatial[i] {
                    self.spatial[i] = Some(SpatialEffect { wave: w, ..s });
                }
            },
            None => {},
        }
        assert(self@ =~= old(self)@.set_last_wave(w));
    }

    fn set_last_phase(&mut self, p: Phase)
        ensures
            final(self)@ == old(self)@.set_last_phase(p),
    {
        match self.last_effect {
            Some(LastEffect::Color(i)) => {
                if i < MAX_COLOR_FX {
                    if let Some(c) = self.colors[i] {
                        self.colors[i] = Some(c.with_phase(p));
                    }
                }
            },
            Some(LastEffect::Alpha) => {
                if let Some(a) = self.alpha {
                    self.alpha = Some(a.with_phase(p));
                }
            },
            Some(LastEffect::Spatial(k)) => {
                let i = k.index();
                if let Some(s) = self.spatial[i] {
                    self.spatial[i] = Some(SpatialEffect { phase: p, ..s });
                }
            },
            None => {},
        }
        assert(self@ =~= old(self)@.set_last_phase(p));
    }
}

/// Present values of a prefix one longer: those of the shorter prefix, then the new
/// position's value if it holds one.
proof fn lemma_present_take_step<T>(s: Seq<Option<T>>, k: int)
    requires
        0 <= k < s.len(),
    ensures
        present(s.take(k + 1)) == match s[k] {
            Some(v) => present(s.take(k)).push(v),
            None => present(s.take(k)),
        },
{
    assert(s.take(k + 1).drop_last() =~= s.take(k));
}

impl Default for EffectBuilder {
    fn default() -> (r: EffectBuilder)
        ensures
            r.is_empty_with(Lifetime::spec_disabled()),
    {
        EffectBuilder::empty(Lifetime::disabled())
    }
}

} // verus!
