//! Per-sprite data: the user-facing effect holder and the internal markers.
use vstd::prelude::*;

use crate::effect_stack::{pushed, Effect, EffectStack};

verus! {

/// A sprite's effects and the tile it shows.
#[derive(Clone, Copy, Debug)]
pub struct Vfx {
    pub sprite_index: u32,
    pub effects: EffectStack,
}

impl Vfx {
    /// Tile `sprite_index` and no effect.
    pub fn new(sprite_index: u32) -> (r: Vfx)
        ensures
            r.sprite_index == sprite_index,
            r.effects.is_blank(),
    {
        Vfx { sprite_index, effects: EffectStack::new() }
    }

    /// Tile `sprite_index` and no effect.
    pub fn with_sprite(sprite_index: u32) -> (r: Vfx)
        ensures
            r.sprite_index == sprite_index,
            r.effects.is_blank(),
    {
        Vfx::new(sprite_index)
    }

    /// Pushes `effect` onto the sprite's stack (see [`EffectStack::push`]).
    pub fn push_effect(&mut self, effect: Effect)
        ensures
            final(self).sprite_index == old(self).sprite_index,
            final(self).effects.tile_index == old(self).effects.tile_index,
            final(self).effects.effects@ == pushed(old(self).effects.effects@, effect),
    {
        self.effects.push(effect);
    }

    /// Disables every effect of the sprite.
    pub fn clear_effects(&mut self)
        ensures
            final(self).sprite_index == old(self).sprite_index,
            final(self).effects.tile_index == old(self).effects.tile_index,
            forall|i: int|
                0 <= i < crate::MAX_FX ==> final(self).effects.effects[i]
                    == crate::effect_stack::disabled(old(self).effects.effects[i]),
    {
        self.effects.clear();
    }
}

impl Default for Vfx {
    fn default() -> (r: Vfx)
        ensures
            r.sprite_index == 0,
            r.effects.is_blank(),
    {
        Vfx::new(0)
    }
}

/// The tile a sprite shows, as last synchronized from its [`Vfx`].
#[derive(Clone, Copy, Debug, PartialEq, Eq, Structural)]
pub struct SpriteIndex(pub u32);

impl Default for SpriteIndex {
    fn default() -> (r: SpriteIndex)
        ensures
            r.0 == 0,
    {
        SpriteIndex(0)
    }
}

/// Marks a sprite kept hidden until its row has been uploaded once.
#[derive(Clone, Copy, Debug, PartialEq, Eq, Structural)]
pub struct VfxGhostBuffer;

/// Marks a sprite that shares the broadcast effect stack instead of owning a row.
#[derive(Clone, Copy, Debug, PartialEq, Eq, Structural)]
pub struct VfxBroadcast;

} // verus!
