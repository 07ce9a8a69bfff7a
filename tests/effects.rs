use hirundo::{
    Anchor, BlendMode, CompositeMode, Effect, EffectBuilder, EffectModifier, EffectStack,
    Envelope, GrowthMode, Intensity, Lifetime, Phase, Scalar, SpatialKind, Vec4, Wave,
    WaveKind, WavePhase, WavePhaseCenter, MAX_FX,
};

fn s(v: f32) -> Scalar {
    Scalar::from_bits(v.to_bits())
}

fn f(x: Scalar) -> f32 {
    f32::from_bits(x.to_bits())
}

fn red() -> Vec4 {
    Vec4::new(s(1.0), s(0.0), s(0.0), s(1.0))
}

fn due_at(now: f32) -> impl Fn(Lifetime) -> bool {
    move |l: Lifetime| now >= f(l.start_time) + f(l.duration)
}

#[test]
fn push_past_capacity_overwrites_slot_zero() {
    let mut stack = EffectStack::new();
    for i in 0..(MAX_FX + 1) {
        stack.push(Effect::new_one_shot(s(i as f32), s(10.0)));
    }
    assert_eq!(f(stack.effects[0].lifetime.start_time), MAX_FX as f32);
    for i in 1..MAX_FX {
        assert_eq!(f(stack.effects[i].lifetime.start_time), i as f32);
        assert_eq!(stack.effects[i].lifetime.enabled, 1);
    }
}

#[test]
fn push_uses_first_disabled_slot() {
    let mut stack = EffectStack::new();
    for i in 0..MAX_FX {
        stack.push(Effect::new_one_shot(s(i as f32), s(1.0)));
    }
    stack.effects[3].lifetime.enabled = 0;
    stack.push(Effect::new_looping(s(42.0), s(1.0)));
    assert_eq!(f(stack.effects[3].lifetime.start_time), 42.0);
    assert_eq!(stack.effects[3].lifetime.looping, 1);
    assert_eq!(f(stack.effects[0].lifetime.start_time), 0.0);
}

#[test]
fn clear_disables_every_effect_and_keeps_tile() {
    let mut stack = EffectStack::new();
    stack.tile_index = 9;
    stack.push(Effect::new_one_shot(s(0.0), s(1.0)));
    stack.push(Effect::new_looping(s(0.0), s(1.0)));
    stack.clear();
    assert_eq!(stack.tile_index, 9);
    for e in stack.effects.iter() {
        assert_eq!(e.lifetime.enabled, 0);
    }
    assert_eq!(stack.effects[1].lifetime.looping, 1);
}

#[test]
fn expire_disables_one_shot_exactly_when_due() {
    let mut stack = EffectStack::new();
    stack.push(Effect::new_one_shot(s(1.0), s(2.0)));
    stack.expire(due_at(2.5));
    assert_eq!(stack.effects[0].lifetime.enabled, 1);
    stack.expire(due_at(3.0));
    assert_eq!(stack.effects[0].lifetime.enabled, 0);
    assert_eq!(f(stack.effects[0].lifetime.start_time), 1.0);
}

#[test]
fn expire_never_disables_looping_effects() {
    let mut stack = EffectStack::new();
    stack.push(Effect::new_looping(s(0.0), s(1.0)));
    stack.push(Effect::new_one_shot(s(0.0), s(1.0)));
    stack.expire(due_at(1000.0));
    assert_eq!(stack.effects[0].lifetime.enabled, 1);
    assert_eq!(stack.effects[1].lifetime.enabled, 0);
}

#[test]
fn one_shot_rotation_expires_at_its_end() {
    let effect = EffectBuilder::one_shot(s(0.0), s(2.0))
        .rotate(s(360f32.to_radians()))
        .build();
    assert_eq!(effect.spatial_effects[0].manipulation, 4);
    assert_eq!(f(effect.spatial_effects[0].wave.amp), 360f32.to_radians());
    let mut stack = EffectStack::new();
    stack.push(effect);
    stack.expire(due_at(1.5));
    assert_eq!(stack.effects[0].lifetime.enabled, 1);
    stack.expire(due_at(2.0));
    assert_eq!(stack.effects[0].lifetime.enabled, 0);
    assert!(stack.effects.iter().all(|e| e.lifetime.enabled == 0));
}

#[test]
fn looping_red_color_effect() {
    let effect = EffectBuilder::looping(s(0.0), s(1.0)).color(red()).build();
    assert_eq!(effect.lifetime.looping, 1);
    assert_eq!(f(effect.lifetime.duration), 1.0);
    let c = effect.color_effects[0];
    assert_eq!(c.color, red());
    assert_eq!(c.blend_mode, 0);
    assert_eq!(c.wave.kind, 4);
    assert_eq!(f(c.wave.amp), 1.0);
    assert_eq!(c.phase, Phase::full());
}

#[test]
fn fourth_color_is_dropped() {
    let blue = Vec4::new(s(0.0), s(0.0), s(1.0), s(1.0));
    let green = Vec4::new(s(0.0), s(1.0), s(0.0), s(1.0));
    let white = Vec4::new(s(1.0), s(1.0), s(1.0), s(1.0));
    let effect = EffectBuilder::one_shot(s(0.0), s(1.0))
        .color(red())
        .color(green)
        .color(blue)
        .color(white)
        .with(EffectModifier::BlendMode(BlendMode::Add))
        .build();
    assert_eq!(effect.color_effects[0].color, red());
    assert_eq!(effect.color_effects[1].color, green);
    assert_eq!(effect.color_effects[2].color, blue);
    assert!(effect.color_effects.iter().all(|c| c.color != white));
    // The ignored color did not become the target of the modifier: the third one did.
    assert_eq!(effect.color_effects[2].blend_mode, BlendMode::Add.to_u32());
    assert_eq!(effect.color_effects[1].blend_mode, 0);
}

#[test]
fn modifier_without_sub_effect_changes_nothing() {
    let b = EffectBuilder::one_shot(s(0.0), s(1.0))
        .with(EffectModifier::Bias(hirundo::Bias::new(s(3.0))))
        .with(EffectModifier::Anchor(Anchor::TopLeft));
    assert!(b.last_effect.is_none());
    assert!(b.colors.iter().all(|c| c.is_none()));
    assert!(b.alpha.is_none());
    assert!(b.spatial.iter().all(|c| c.is_none()));
}

#[test]
fn spatial_only_modifiers_skip_color_and_alpha() {
    let effect = EffectBuilder::one_shot(s(0.0), s(1.0))
        .color(red())
        .with(EffectModifier::Anchor(Anchor::TopLeft))
        .with(EffectModifier::Intensity(Intensity(s(5.0))))
        .alpha(s(0.5))
        .with(EffectModifier::BlendMode(BlendMode::Screen))
        .build();
    assert_eq!(effect.color_effects[0].blend_mode, 0);
    assert_eq!(f(effect.alpha_effect.target_alpha), 0.5);
    assert_eq!(effect.spatial_effects[0], hirundo::SpatialEffect::disabled());
}

#[test]
fn modifiers_adjust_last_spatial_effect() {
    let effect = EffectBuilder::one_shot(s(0.0), s(1.0))
        .offset_x(s(10.0))
        .scale_y(s(2.0))
        .with(EffectModifier::Anchor(Anchor::BottomCenter))
        .with(EffectModifier::Intensity(Intensity(s(0.5))))
        .with(EffectModifier::Wave(Wave::sine(s(1.0), s(-0.3), s(1.0))))
        .with(EffectModifier::Phase(Phase::new(s(0.2), s(0.8))))
        .build();
    let x = effect.spatial_effects[0];
    let y = effect.spatial_effects[1];
    assert_eq!(x.manipulation, 0);
    assert_eq!(f(x.wave.amp), 10.0);
    assert_eq!(f(x.anchor.x), 0.5);
    assert_eq!(f(x.anchor.y), 0.5);
    assert_eq!(y.manipulation, 3);
    assert_eq!(f(y.anchor.x), 0.5);
    assert_eq!(f(y.anchor.y), 0.0);
    assert_eq!(f(y.intensity), 0.5);
    assert_eq!(y.wave.kind, 0);
    assert_eq!(f(y.wave.amp), -0.3);
    assert_eq!(f(y.phase.start), 0.2);
    assert_eq!(f(y.phase.end), 0.8);
}

#[test]
fn build_keeps_first_three_spatial_kinds_in_kind_order() {
    let effect = EffectBuilder::one_shot(s(0.0), s(1.0))
        .skew_y(s(1.0))
        .rotate(s(2.0))
        .offset_y(s(3.0))
        .scale_x(s(4.0))
        .build();
    assert_eq!(effect.spatial_effects[0].manipulation, SpatialKind::OffsetY.to_u32());
    assert_eq!(effect.spatial_effects[1].manipulation, SpatialKind::ScaleX.to_u32());
    assert_eq!(effect.spatial_effects[2].manipulation, SpatialKind::Rotation.to_u32());
    assert_eq!(f(effect.spatial_effects[2].wave.amp), 2.0);
}

#[test]
fn replacing_a_spatial_kind_keeps_one_slot() {
    let effect = EffectBuilder::one_shot(s(0.0), s(1.0))
        .offset_x(s(1.0))
        .offset_x(s(7.0))
        .build();
    assert_eq!(f(effect.spatial_effects[0].wave.amp), 7.0);
    assert_eq!(effect.spatial_effects[1], hirundo::SpatialEffect::disabled());
}

#[test]
fn composite_mode_goes_into_fourth_channel() {
    let effect = EffectBuilder::one_shot(s(0.0), s(1.0))
        .color(red())
        .with(EffectModifier::CompositeMode(CompositeMode::Additive))
        .color(red())
        .with(EffectModifier::CompositeMode(CompositeMode::Multiplicative))
        .build();
    assert_eq!(f(effect.color_effects[0].color.w), 2.0);
    assert_eq!(f(effect.color_effects[1].color.w), 0.0);
    assert_eq!(f(effect.color_effects[1].color.x), 1.0);
    assert_eq!(f(CompositeMode::default().selector()), 1.0);
}

#[test]
fn wave_modifiers_reach_alpha() {
    let effect = EffectBuilder::one_shot(s(0.0), s(1.0))
        .invisibility()
        .with(EffectModifier::WaveKind(WaveKind::Square))
        .with(EffectModifier::WavePhase(WavePhase::new(s(0.1))))
        .with(EffectModifier::Frequency(hirundo::Frequency(s(3.0))))
        .with(EffectModifier::Amplitude(hirundo::Amplitude(s(0.7))))
        .with(EffectModifier::AmplitudeEnvelope(Envelope::amplitude(s(0.2), s(0.0), s(0.8))))
        .build();
    let a = effect.alpha_effect;
    assert_eq!(f(a.target_alpha), 0.0);
    assert_eq!(a.wave.kind, 1);
    assert_eq!(f(a.wave.phase), 0.1);
    assert_eq!(f(a.wave.freq), 3.0);
    assert_eq!(f(a.wave.amp), 0.7);
    assert_eq!(a.wave.amp_envelope.enabled, 1);
    assert_eq!(f(a.wave.amp_envelope.release), 0.8);
    assert_eq!(a.wave.freq_envelope, Envelope::disabled());
}

#[test]
fn center_phase_depends_on_shape() {
    assert_eq!(f(Wave::sine(s(1.0), s(1.0), s(0.0)).with_center_phase().phase), 0.25);
    assert_eq!(f(Wave::triangle(s(1.0), s(1.0), s(0.0)).with_center_phase().phase), 0.25);
    assert_eq!(f(Wave::square(s(1.0), s(1.0), s(0.0)).with_center_phase().phase), 0.5);
    assert_eq!(f(Wave::saw(s(1.0), s(1.0), s(0.0)).with_center_phase().phase), 0.5);
    assert_eq!(f(Wave::constant(s(1.0)).with_center_phase().phase), 0.25);
    let effect = EffectBuilder::one_shot(s(0.0), s(1.0))
        .offset_y(s(4.0))
        .with(EffectModifier::WaveKind(WaveKind::Saw))
        .with(EffectModifier::WavePhaseCenter(WavePhaseCenter))
        .build();
    assert_eq!(f(effect.spatial_effects[0].wave.phase), 0.5);
}

#[test]
fn ease_out_stores_negated_strength() {
    let e = Envelope::frequency(s(0.2), s(0.0), s(0.8)).with_ease_out(s(4.0)).0;
    assert_eq!(e.decay_mode, GrowthMode::Exponential.to_u32());
    assert_eq!(f(e.decay), -4.0);
    let g = Envelope::new(s(0.5), s(0.0), s(0.5)).with_ease_in(s(-1.0));
    assert_eq!(g.growth_mode, 1);
    assert_eq!(f(g.growth), -1.0);
    assert_eq!(g.decay_mode, 0);
    let w = Wave::sine(s(1.0), s(1.0), s(0.0))
        .with_amp_envelope(s(0.1), s(0.1), s(0.8))
        .with_amp_envelope_exponential_decay(s(-2.0));
    assert_eq!(f(w.amp_envelope.decay), 2.0);
}

#[test]
fn defaults_are_no_ops() {
    let e = Effect::default();
    assert_eq!(e.lifetime, Lifetime::disabled());
    assert_eq!(e.alpha_effect.wave, Wave::constant(s(0.0)));
    assert_eq!(f(e.alpha_effect.target_alpha), 1.0);
    assert_eq!(Envelope::default().enabled, 0);
    assert_eq!(Phase::default(), Phase::new(s(0.0), s(1.0)));
    assert_eq!(WaveKind::default(), WaveKind::Constant);
    assert_eq!(BlendMode::default().to_u32(), 0);
    assert_eq!(BlendMode::Hsv.to_u32(), 4);
}

#[test]
fn anchors_map_to_sprite_points() {
    let p = |a: Anchor| {
        let v = a.to_vec2();
        (f(v.x), f(v.y))
    };
    assert_eq!(p(Anchor::Center), (0.5, 0.5));
    assert_eq!(p(Anchor::TopLeft), (0.0, 1.0));
    assert_eq!(p(Anchor::TopRight), (1.0, 1.0));
    assert_eq!(p(Anchor::CenterRight), (1.0, 0.5));
    assert_eq!(p(Anchor::BottomLeft), (0.0, 0.0));
    assert_eq!(p(Anchor::BottomRight), (1.0, 0.0));
}

#[test]
fn lifetime_toggle_flips_enabled() {
    let mut l = Lifetime::one_shot(s(3.0), s(1.0));
    l.toggle();
    assert_eq!(l.enabled, 0);
    l.toggle();
    assert_eq!(l.enabled, 1);
    assert_eq!(f(l.start_time), 3.0);
}
