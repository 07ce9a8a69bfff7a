//! The host-side mirror of the GPU storage array, with dirty tracking, and the lifecycle
//! hooks that attach and detach a sprite's row.
use vstd::prelude::*;

use std::collections::HashSet;

use crate::allocator::{allocated, can_allocate, freed, MeshTag, MeshTagAllocator};
use crate::effect_stack::{disabled, EffectStack};
use crate::layout::{
    lemma_rows_bytes, rows_to_words, rows_words, stack_words, to_le_bytes, words_to_bytes,
    STACK_BYTES,
};
use crate::MAX_VFX_ENTITIES;

verus! {

/// Why a sprite could not be given a row.
#[derive(Clone, Copy, Debug, PartialEq, Eq, Structural)]
pub enum VfxError {
    /// The tag the allocator would hand out names no row of the storage array.
    SlotsExhausted,
}

/// `new` is `old` with every effect disabled and the tile index reset to 0.
pub open spec fn is_reset_of(new: EffectStack, old: EffectStack) -> bool {
    &&& new.tile_index == 0
    &&& forall|i: int| 0 <= i < crate::MAX_FX ==> #[trigger] new.effects[i] == disabled(old.effects[i])
}

/// One stack per row, and the rows changed since the last upload.
pub struct EffectStorageData {
    pub effects: Vec<EffectStack>,
    pub dirty_slots: HashSet<usize>,
}

impl EffectStorageData {
    /// Every row free and nothing to upload.
    pub fn new() -> (r: EffectStorageData)
        ensures
            r.effects@.len() == MAX_VFX_ENTITIES,
            forall|i: int| 0 <= i < MAX_VFX_ENTITIES ==> (#[trigger] r.effects@[i]).is_blank(),
            r.dirty_slots@ == Set::<usize>::empty(),
    {
        let mut effects: Vec<EffectStack> = Vec::new();
        let mut i: usize = 0;
        while i < MAX_VFX_ENTITIES
            invariant
                i <= MAX_VFX_ENTITIES,
                effects@.len() == i,
                forall|j: int| 0 <= j < i ==> (#[trigger] effects@[j]).is_blank(),
            decreases MAX_VFX_ENTITIES - i,
        {
            effects.push(EffectStack::new());
            i = i + 1;
        }
        EffectStorageData { effects, dirty_slots: HashSet::new() }
    }

    /// Whether row `slot` waits for upload.
    pub fn is_dirty(&self, slot: usize) -> (r: bool)
        ensures
            r == self.dirty_slots@.contains(slot),
    {
        self.dirty_slots.contains(&slot)
    }

    /// Records that row `slot` changed.
    pub fn mark_dirty(&mut self, slot: usize)
        ensures
            final(self).effects@ == old(self).effects@,
            final(self).dirty_slots@ == old(self).dirty_slots@.insert(slot),
    {
        self.dirty_slots.insert(slot);
    }

    /// Mirror update for one sprite whose stack changed: unless its row is already
    /// waiting for upload, or names no row, the row becomes the stack with the sprite's
    /// tile index and is marked. Returns whether the row was written.
    pub fn write_stack(&mut self, tag: MeshTag, stack: &EffectStack, sprite_index: u32) -> (r: bool)
        ensures
            r == (!old(self).dirty_slots@.contains(tag.0 as usize)
                && (tag.0 as int) < old(self).effects@.len()),
            r ==> final(self).effects@ == old(self).effects@.update(
                tag.0 as int,
                EffectStack { tile_index: sprite_index, ..*stack },
            ),
            r ==> final(self).dirty_slots@ == old(self).dirty_slots@.insert(tag.0 as usize),
            !r ==> final(self).effects@ == old(self).effects@,
            !r ==> final(self).dirty_slots@ == old(self).dirty_slots@,
    {
        let index = tag.0 as usize;
        if self.dirty_slots.contains(&index) {
            return false;
        }
        if index < self.effects.len() {
            let mut row = *stack;
            row.tile_index = sprite_index;
            self.effects.set(index, row);
            self.dirty_slots.insert(index);
            true
        } else {
            false
        }
    }

    /// Whether any row waits for upload.
    pub fn has_pending_upload(&self) -> (r: bool)
        ensures
            r == !self.dirty_slots@.is_empty(),
    {
        !self.dirty_slots.is_empty()
    }

    /// The whole array as the bytes the shader reads: row `t` is the record of stack
    /// `t`, at offset `t * STACK_BYTES`.
    pub fn buffer_bytes(&self) -> (r: Vec<u8>)
        ensures
            r@ == words_to_bytes(rows_words(self.effects@)),
            r@.len() == self.effects@.len() * STACK_BYTES,
            forall|t: int|
                0 <= t < self.effects@.len() ==> #[trigger] r@.subrange(
                    t * STACK_BYTES,
                    t * STACK_BYTES + STACK_BYTES,
                ) == words_to_bytes(stack_words(self.effects@[t])),
    {
        proof {
            lemma_rows_bytes(self.effects@);
        }
        to_le_bytes(&rows_to_words(&self.effects))
    }

    /// Records that every row was uploaded.
    pub fn finish_upload(&mut self)
        ensures
            final(self).effects@ == old(self).effects@,
            final(self).dirty_slots@ == Set::<usize>::empty(),
    {
        self.dirty_slots.clear();
    }
}

/// Attaches a sprite: allocates its tag and marks its row for upload. When the tag the
/// allocator would hand out names no row, or no tag is left, nothing changes and the
/// error says so.
pub fn hydrate_vfx(allocator: &mut MeshTagAllocator, storage: &mut EffectStorageData) -> (r: Result<
    MeshTag,
    VfxError,
>)
    ensures
        final(storage).effects@ == old(storage).effects@,
        ((allocated(old(allocator)@).0 as int) < old(storage).effects@.len() && can_allocate(
            old(allocator)@,
        )) == (r is Ok),
        r is Ok ==> {
            &&& r->Ok_0.0 == allocated(old(allocator)@).0
            &&& final(allocator)@ == allocated(old(allocator)@).1
            &&& final(storage).dirty_slots@ == old(storage).dirty_slots@.insert(r->Ok_0.0 as usize)
        },
        r is Err ==> {
            &&& r == Err::<MeshTag, VfxError>(VfxError::SlotsExhausted)
            &&& final(allocator)@ == old(allocator)@
            &&& final(storage).dirty_slots@ == old(storage).dirty_slots@
        },
{
    let upcoming = allocator.upcoming_tag();
    let exhausted = allocator.free_list.len() == 0 && allocator.next_tag == u32::MAX;
    if exhausted || upcoming as usize >= storage.effects.len() {
        return Err(VfxError::SlotsExhausted);
    }
    let tag = allocator.allocate_tag();
    storage.mark_dirty(tag.0 as usize);
    Ok(tag)
}

/// Detaches a sprite: resets its row (effects disabled, tile 0) and marks it for upload
/// when the tag names a row, then recycles the tag.
pub fn dehydrate_vfx(allocator: &mut MeshTagAllocator, storage: &mut EffectStorageData, tag: MeshTag)
    ensures
        final(allocator)@ == freed(old(allocator)@, tag.0),
        final(storage).effects@.len() == old(storage).effects@.len(),
        (tag.0 as int) < old(storage).effects@.len() ==> {
            &&& is_reset_of(final(storage).effects@[tag.0 as int], old(storage).effects@[tag.0 as int])
            &&& forall|j: int|
                0 <= j < old(storage).effects@.len() && j != tag.0
                    ==> #[trigger] final(storage).effects@[j] == old(storage).effects@[j]
            &&& final(storage).dirty_slots@ == old(storage).dirty_slots@.insert(tag.0 as usize)
        },
        (tag.0 as int) >= old(storage).effects@.len() ==> {
            &&& final(storage).effects@ == old(storage).effects@
            &&& final(storage).dirty_slots@ == old(storage).dirty_slots@
        },
{
    let index = tag.0 as usize;
    if index < storage.effects.len() {
        let mut row = storage.effects[index];
        row.clear();
        row.tile_index = 0;
        storage.effects.set(index, row);
        storage.mark_dirty(index);
    }
    allocator.free_tag(tag.0);
}

} // verus!
