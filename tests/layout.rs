use hirundo::layout::{STACK_BYTES, STACK_WORDS};
use hirundo::{
    AtlasDimensions, BlendMode, EffectBuilder, EffectModifier, EffectStack, EffectStorageData,
    HirundoPlugin, Scalar, Vec2, Vec4, MAX_VFX_ENTITIES,
};

fn s(v: f32) -> Scalar {
    Scalar::from_bits(v.to_bits())
}

fn word(bytes: &[u8], index: usize) -> u32 {
    let b = &bytes[4 * index..4 * index + 4];
    u32::from_le_bytes([b[0], b[1], b[2], b[3]])
}

#[test]
fn stack_record_has_fixed_size() {
    let stack = EffectStack::new();
    assert_eq!(stack.to_words().len(), STACK_WORDS);
    assert_eq!(stack.to_bytes().len(), STACK_BYTES);
    assert_eq!(STACK_BYTES, 5776);
}

#[test]
fn fields_sit_at_fixed_offsets() {
    let mut stack = EffectStack::new();
    stack.tile_index = 0x0102_0304;
    stack.push(
        EffectBuilder::looping(s(1.5), s(2.0))
            .color(Vec4::new(s(1.0), s(0.5), s(0.25), s(1.0)))
            .with(EffectModifier::BlendMode(BlendMode::Screen))
            .build(),
    );
    let bytes = stack.to_bytes();
    assert_eq!(&bytes[0..4], &[4, 3, 2, 1]);
    assert_eq!(&bytes[4..16], &[0u8; 12]);
    // Lifetime of the first effect: words 4..8.
    assert_eq!(word(&bytes, 4), 1);
    assert_eq!(word(&bytes, 5), 1);
    assert_eq!(f32::from_bits(word(&bytes, 6)), 1.5);
    assert_eq!(f32::from_bits(word(&bytes, 7)), 2.0);
    // First color effect: phase at word 8, wave at 12, color at 36, blend mode at 40.
    assert_eq!(f32::from_bits(word(&bytes, 9)), 1.0);
    assert_eq!(word(&bytes, 12), 4);
    assert_eq!(f32::from_bits(word(&bytes, 14)), 1.0);
    assert_eq!(f32::from_bits(word(&bytes, 37)), 0.5);
    assert_eq!(f32::from_bits(word(&bytes, 38)), 0.25);
    assert_eq!(word(&bytes, 40), 3);
    // The second effect starts 240 words later and is free.
    assert_eq!(word(&bytes, 4 + 240), 0);
}

#[test]
fn alpha_and_spatial_offsets() {
    let mut stack = EffectStack::new();
    stack.push(
        EffectBuilder::one_shot(s(0.0), s(1.0))
            .alpha(s(0.75))
            .scale_x(s(3.0))
            .build(),
    );
    let words = stack.to_words();
    // Alpha effect: after the lifetime and three color effects, at word 4 + 4 + 108.
    let alpha = 4 + 4 + 108;
    assert_eq!(f32::from_bits(words[alpha + 28]), 0.75);
    // Spatial effects follow the alpha effect.
    let spatial = alpha + 32;
    assert_eq!(words[spatial + 28], 2);
    assert_eq!(f32::from_bits(words[spatial + 29]), 1.0);
    assert_eq!(f32::from_bits(words[spatial + 30]), 0.5);
    assert_eq!(f32::from_bits(words[spatial + 4 + 2]), 3.0);
}

#[test]
fn buffer_is_rows_back_to_back() {
    let mut storage = EffectStorageData::new();
    let mut row = EffectStack::new();
    row.tile_index = 77;
    storage.effects[2] = row;
    let bytes = storage.buffer_bytes();
    assert_eq!(bytes.len(), MAX_VFX_ENTITIES * STACK_BYTES);
    assert_eq!(word(&bytes, 2 * STACK_WORDS), 77);
    assert_eq!(&bytes[2 * STACK_BYTES..3 * STACK_BYTES], &row.to_bytes()[..]);
    storage.mark_dirty(2);
    assert!(storage.has_pending_upload());
    storage.finish_upload();
    assert!(!storage.has_pending_upload());
}

#[test]
fn negation_flips_only_the_sign() {
    assert_eq!(f32::from_bits(s(2.5).neg().to_bits()), -2.5);
    assert_eq!(f32::from_bits(s(-0.5).neg().to_bits()), 0.5);
    assert_eq!(s(0.0).neg().to_bits(), 0x8000_0000);
}

#[test]
fn plugin_settings() {
    let p = HirundoPlugin::default();
    assert_eq!(p.texture_path, "32roguesTextureV2.png");
    assert!(!p.with_camera);
    assert_eq!(f32::from_bits(p.atlas_dimensions.texture_size.x.to_bits()), 1024.0);
    assert_eq!(f32::from_bits(p.atlas_dimensions.cell_size.y.to_bits()), 40.0);
    assert_eq!(f32::from_bits(p.atlas_dimensions.sprite_size.x.to_bits()), 32.0);
    assert_eq!(f32::from_bits(p.atlas_dimensions.padding.y.to_bits()), 4.0);
    let v = Vec2::new(s(8.0), s(9.0));
    let p = p
        .with_camera()
        .with_texture("atlas.png")
        .with_cell_size(v)
        .with_padding(Vec2::zero());
    assert!(p.with_camera);
    assert_eq!(p.texture_path, "atlas.png");
    assert_eq!(p.atlas_dimensions.cell_size, v);
    assert_eq!(p.atlas_dimensions.padding, Vec2::zero());
    let q = p.with_atlas(AtlasDimensions::default()).with_sprite_size(v).with_texture_size(v);
    assert_eq!(q.atlas_dimensions.sprite_size, v);
    assert_eq!(q.atlas_dimensions.texture_size, v);
    assert_eq!(q.atlas_dimensions.cell_size, AtlasDimensions::default().cell_size);
}
