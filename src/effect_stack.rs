//! Effects and the fixed-capacity stack of effects attached to one sprite.
use vstd::prelude::*;

use crate::alpha::AlphaEffect;
use crate::color::ColorEffect;
use crate::lifetime::Lifetime;
use crate::scalar::Scalar;
use crate::spatial::SpatialEffect;
use crate::{MAX_COLOR_FX, MAX_FX, MAX_SPATIAL_FX};

verus! {

/// One effect: master timing plus every sub-effect slot, all always present so that the
/// record has a constant size.
#[derive(Clone, Copy, Debug)]
pub struct Effect {
    pub lifetime: Lifetime,
    pub color_effects: [ColorEffect; MAX_COLOR_FX],
    pub alpha_effect: AlphaEffect,
    pub spatial_effects: [SpatialEffect; MAX_SPATIAL_FX],
}

impl Effect {
    /// Every sub-effect slot holds its unused value.
    pub open spec fn has_blank_slots(self) -> bool {
        &&& forall|i: int| 0 <= i < MAX_COLOR_FX ==> self.color_effects[i] == ColorEffect::spec_default()
        &&& self.alpha_effect == AlphaEffect::spec_default()
        &&& forall|i: int| 0 <= i < MAX_SPATIAL_FX ==> self.spatial_effects[i] == SpatialEffect::spec_default()
    }

    /// An effect with the given lifetime and no sub-effects.
    pub fn with_lifetime(lifetime: Lifetime) -> (r: Effect)
        ensures
            r.lifetime == lifetime,
            r.has_blank_slots(),
    {
        let c = ColorEffect::default();
        let s = SpatialEffect::default();
        Effect {
            lifetime,
            color_effects: [c, c, c],
            alpha_effect: AlphaEffect::default(),
            spatial_effects: [s, s, s],
        }
    }

    /// An empty one-shot effect from `now`, lasting `duration` seconds.
    pub fn new_one_shot(now: Scalar, duration: Scalar) -> (r: Effect)
        ensures
            r.lifetime == (Lifetime { enabled: 1, looping: 0, start_time: now, duration }),
            r.has_blank_slots(),
    {
        Effect::with_lifetime(Lifetime::one_shot(now, duration))
    }

    /// An empty looping effect from `now`, repeating every `period` seconds.
    pub fn new_looping(now: Scalar, period: Scalar) -> (r: Effect)
        ensures
            r.lifetime == (Lifetime { enabled: 1, looping: 1, start_time: now, duration: period }),
            r.has_blank_slots(),
    {
        Effect::with_lifetime(Lifetime::looping(now, period))
    }
}

impl Default for Effect {
    fn default() -> (r: Effect)
        ensures
            r.lifetime == Lifetime::spec_disabled(),
            r.has_blank_slots(),
    {
        Effect::with_lifetime(Lifetime::disabled())
    }
}

/// A slot is free when its effect is disabled.
pub open spec fn is_free(e: Effect) -> bool {
    e.lifetime.enabled == 0
}

/// The first free slot at or after `i`, or slot 0 when there is none.
pub open spec fn free_slot_from(s: Seq<Effect>, i: int) -> int
    decreases s.len() - i,
{
    if i < 0 || i >= s.len() {
        0
    } else if is_free(s[i]) {
        i
    } else {
        free_slot_from(s, i + 1)
    }
}

/// The slot a push writes: the first free slot, or slot 0 when every slot is live.
pub open spec fn push_slot(s: Seq<Effect>) -> int {
    free_slot_from(s, 0)
}

/// The slots after pushing `e`.
pub open spec fn pushed(s: Seq<Effect>, e: Effect) -> Seq<Effect> {
    s.update(push_slot(s), e)
}

/// `e` with its lifetime disabled and nothing else changed.
pub open spec fn disabled(e: Effect) -> Effect {
    Effect { lifetime: Lifetime { enabled: 0, ..e.lifetime }, ..e }
}

/// The effects attached to one sprite, with the sprite's tile in the atlas.
#[derive(Clone, Copy, Debug)]
pub struct EffectStack {
    pub tile_index: u32,
    pub effects: [Effect; MAX_FX],
}

impl EffectStack {
    /// Tile 0 and every slot a disabled, empty effect.
    pub open spec fn is_blank(self) -> bool {
        &&& self.tile_index == 0
        &&& forall|i: int|
            0 <= i < MAX_FX ==> {
                &&& self.effects[i].lifetime == Lifetime::spec_disabled()
                &&& #[trigger] self.effects[i].has_blank_slots()
            }
    }

    /// A stack whose slots are all free.
    pub fn new() -> (r: EffectStack)
        ensures
            r.is_blank(),
    {
        let e = Effect::default();
        EffectStack { tile_index: 0, effects: [e, e, e, e, e, e] }
    }

    /// Disables every effect; nothing else changes.
    pub fn clear(&mut self)
        ensures
            final(self).tile_index == old(self).tile_index,
            forall|i: int| 0 <= i < MAX_FX ==> final(self).effects[i] == disabled(old(self).effects[i]),
    {
        let mut i: usize = 0;
        while i < MAX_FX
            invariant
                i <= MAX_FX,
                self.tile_index == old(self).tile_index,
                forall|j: int| 0 <= j < i ==> self.effects[j] == disabled(old(self).effects[j]),
                forall|j: int| i <= j < MAX_FX ==> self.effects[j] == old(self).effects[j],
            decreases MAX_FX - i,
        {
            let mut e = self.effects[i];
            e.lifetime.enabled = 0;
            self.effects[i] = e;
            i = i + 1;
        }
    }

    /// Places `effect` in the first disabled slot; when every slot is live, overwrites
    /// slot 0 whatever it holds.
    pub fn push(&mut self, effect: Effect)
        ensures
            final(self).tile_index == old(self).tile_index,
            final(self).effects@ == pushed(old(self).effects@, effect),
    {
        let ghost s = self.effects@;
        let mut i: usize = 0;
        while i < MAX_FX
            invariant
                i <= MAX_FX,
                self.effects@ == s,
                s == old(self).effects@,
                self.tile_index == old(self).tile_index,
                s.len() == MAX_FX,
                push_slot(s) == free_slot_from(s, i as int),
            decreases MAX_FX - i,
        {
            if self.effects[i].lifetime.enabled == 0 {
                assert(is_free(s[i as int]));
                self.effects[i] = effect;
                assert(self.effects@ =~= pushed(s, effect));
                return;
            }
            i = i + 1;
        }
        self.effects[0] = effect;
        assert(self.effects@ =~= pushed(s, effect));
    }

    /// Disables each live one-shot effect that `is_due` reports as over; looping effects
    /// and disabled ones are left as they are.
    pub fn expire<F: Fn(Lifetime) -> bool>(&mut self, is_due: F)
        requires
            forall|l: Lifetime| is_due.requires((l,)),
        ensures
            final(self).tile_index == old(self).tile_index,
            forall|i: int|
                0 <= i < MAX_FX ==> {
                    let before = old(self).effects[i];
                    let after = #[trigger] final(self).effects[i];
                    if before.lifetime.enabled == 1 && before.lifetime.looping == 0 {
                        ||| after == disabled(before) && is_due.ensures((before.lifetime,), true)
                        ||| after == before && is_due.ensures((before.lifetime,), false)
                    } else {
                        after == before
                    }
                },
    {
        let mut i: usize = 0;
        while i < MAX_FX
            invariant
                i <= MAX_FX,
                forall|l: Lifetime| is_due.requires((l,)),
                self.tile_index == old(self).tile_index,
                forall|j: int|
                    0 <= j < i ==> {
                        let before = old(self).effects[j];
                        let after = #[trigger] self.effects[j];
                        if before.lifetime.enabled == 1 && before.lifetime.looping == 0 {
                            ||| after == disabled(before) && is_due.ensures((before.lifetime,), true)
                            ||| after == before && is_due.ensures((before.lifetime,), false)
                        } else {
                            after == before
                        }
                    },
                forall|j: int| i <= j < MAX_FX ==> self.effects[j] == old(self).effects[j],
            decreases MAX_FX - i,
        {
            let lifetime = self.effects[i].lifetime;
            if lifetime.enabled == 1 && lifetime.looping == 0 && is_due(lifetime) {
                let mut e = self.effects[i];
                e.lifetime.enabled = 0;
                self.effects[i] = e;
            }
            i = i + 1;
        }
    }
}

impl Default for EffectStack {
    fn default() -> (r: EffectStack)
        ensures
            r.is_blank(),
    {
        EffectStack::new()
    }
}

} // verus!
