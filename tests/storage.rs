use hirundo::{
    dehydrate_vfx, hydrate_vfx, Effect, EffectStack, EffectStorageData, MeshTag,
    MeshTagAllocator, Scalar, Vfx, VfxError, MAX_VFX_ENTITIES,
};

fn s(v: f32) -> Scalar {
    Scalar::from_bits(v.to_bits())
}

#[test]
fn allocate_free_allocate_returns_same_tag() {
    let mut a = MeshTagAllocator::new();
    let t = a.allocate_tag();
    assert_eq!(t, MeshTag(0));
    a.free_tag(t.0);
    assert_eq!(a.allocate_tag(), t);
    assert_eq!(a.allocate_tag(), MeshTag(1));
}

#[test]
fn recycled_tags_come_back_first_in_first_out() {
    let mut a = MeshTagAllocator::default();
    let first: Vec<MeshTag> = (0..5).map(|_| a.allocate_tag()).collect();
    assert_eq!(first, vec![MeshTag(0), MeshTag(1), MeshTag(2), MeshTag(3), MeshTag(4)]);
    for t in &first {
        a.free_tag(t.0);
    }
    let again: Vec<MeshTag> = (0..5).map(|_| a.allocate_tag()).collect();
    assert_eq!(again, first);
    assert_eq!(a.allocate_tag(), MeshTag(5));
}

#[test]
fn recycling_order_is_kept_not_reversed() {
    let mut a = MeshTagAllocator::new();
    for _ in 0..3 {
        a.allocate_tag();
    }
    a.free_tag(2);
    a.free_tag(0);
    assert_eq!(a.upcoming_tag(), 2);
    assert_eq!(a.allocate_tag(), MeshTag(2));
    assert_eq!(a.allocate_tag(), MeshTag(0));
    assert_eq!(a.allocate_tag(), MeshTag(3));
}

#[test]
fn new_storage_is_all_free_and_clean() {
    let storage = EffectStorageData::new();
    assert_eq!(storage.effects.len(), MAX_VFX_ENTITIES);
    assert!(!storage.has_pending_upload());
    assert!(storage
        .effects
        .iter()
        .all(|row| row.tile_index == 0 && row.effects.iter().all(|e| e.lifetime.enabled == 0)));
}

#[test]
fn hydrate_allocates_and_marks_dirty() {
    let mut a = MeshTagAllocator::new();
    let mut storage = EffectStorageData::new();
    assert_eq!(hydrate_vfx(&mut a, &mut storage), Ok(MeshTag(0)));
    assert_eq!(hydrate_vfx(&mut a, &mut storage), Ok(MeshTag(1)));
    assert!(storage.is_dirty(0));
    assert!(storage.is_dirty(1));
    assert!(!storage.is_dirty(2));
    assert!(storage.has_pending_upload());
}

#[test]
fn hydrate_past_capacity_is_an_error() {
    let mut a = MeshTagAllocator::new();
    let mut storage = EffectStorageData::new();
    for i in 0..MAX_VFX_ENTITIES {
        assert_eq!(hydrate_vfx(&mut a, &mut storage), Ok(MeshTag(i as u32)));
    }
    assert_eq!(hydrate_vfx(&mut a, &mut storage), Err(VfxError::SlotsExhausted));
    assert_eq!(a.next_tag, MAX_VFX_ENTITIES as u32);
    dehydrate_vfx(&mut a, &mut storage, MeshTag(7));
    assert_eq!(hydrate_vfx(&mut a, &mut storage), Ok(MeshTag(7)));
}

#[test]
fn dehydrate_resets_row_and_recycles_tag() {
    let mut a = MeshTagAllocator::new();
    let mut storage = EffectStorageData::new();
    let tag = hydrate_vfx(&mut a, &mut storage).unwrap();
    storage.finish_upload();
    let mut vfx = Vfx::with_sprite(12);
    vfx.push_effect(Effect::new_looping(s(0.0), s(1.0)));
    assert!(storage.write_stack(tag, &vfx.effects, vfx.sprite_index));
    assert_eq!(storage.effects[0].tile_index, 12);
    assert_eq!(storage.effects[0].effects[0].lifetime.enabled, 1);
    storage.finish_upload();

    dehydrate_vfx(&mut a, &mut storage, tag);
    assert_eq!(storage.effects[0].tile_index, 0);
    assert_eq!(storage.effects[0].effects[0].lifetime.enabled, 0);
    assert_eq!(storage.effects[0].effects[0].lifetime.looping, 1);
    assert!(storage.is_dirty(0));
    assert_eq!(a.free_list.iter().copied().collect::<Vec<u32>>(), vec![0]);
}

#[test]
fn hydrate_then_dehydrate_in_one_frame_nets_out() {
    let mut a = MeshTagAllocator::new();
    let mut storage = EffectStorageData::new();
    let tag = hydrate_vfx(&mut a, &mut storage).unwrap();
    dehydrate_vfx(&mut a, &mut storage, tag);
    assert_eq!(storage.dirty_slots.len(), 1);
    assert!(storage.is_dirty(tag.0 as usize));
    assert_eq!(a.free_list.len(), 1);
    assert_eq!(hydrate_vfx(&mut a, &mut storage), Ok(tag));
    assert_eq!(storage.dirty_slots.len(), 1);
}

#[test]
fn dehydrate_of_unknown_row_only_recycles() {
    let mut a = MeshTagAllocator::new();
    let mut storage = EffectStorageData::new();
    dehydrate_vfx(&mut a, &mut storage, MeshTag(MAX_VFX_ENTITIES as u32));
    assert!(!storage.has_pending_upload());
    assert_eq!(a.free_list.len(), 1);
}

#[test]
fn write_stack_skips_rows_already_dirty() {
    let mut a = MeshTagAllocator::new();
    let mut storage = EffectStorageData::new();
    let tag = hydrate_vfx(&mut a, &mut storage).unwrap();
    let mut vfx = Vfx::new(3);
    vfx.push_effect(Effect::new_one_shot(s(0.0), s(1.0)));
    assert!(!storage.write_stack(tag, &vfx.effects, vfx.sprite_index));
    assert_eq!(storage.effects[0].tile_index, 0);
    storage.finish_upload();
    assert!(!storage.has_pending_upload());
    assert!(storage.write_stack(tag, &vfx.effects, vfx.sprite_index));
    assert_eq!(storage.effects[0].tile_index, 3);
    assert!(storage.is_dirty(0));
    assert!(!storage.write_stack(MeshTag(MAX_VFX_ENTITIES as u32), &vfx.effects, 1));
}

#[test]
fn vfx_clear_effects_disables_all() {
    let mut vfx = Vfx::default();
    vfx.push_effect(Effect::new_one_shot(s(0.0), s(1.0)));
    vfx.push_effect(Effect::new_looping(s(0.0), s(1.0)));
    vfx.clear_effects();
    assert!(vfx.effects.effects.iter().all(|e| e.lifetime.enabled == 0));
    assert_eq!(vfx.sprite_index, 0);
    let stack = EffectStack::default();
    assert_eq!(stack.tile_index, 0);
}
