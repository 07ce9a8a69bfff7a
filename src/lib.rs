//! Host-side core of a sprite visual-effect engine.
//!
//! Effects are plain fixed-layout records: a master [`Lifetime`] plus color, alpha and
//! spatial sub-effects driven by waves. Records are stacked per sprite in an
//! [`EffectStack`], mirrored into one storage array indexed by a recycled slot tag, and
//! encoded into the 32-bit-word layout that the GPU shader reads.
//!
//! Every scalar is carried as the bit pattern of a 32-bit IEEE-754 value ([`Scalar`]):
//! the library stores, moves and encodes scalars but never does arithmetic on them.
use vstd::prelude::*;

pub mod allocator;
pub mod alpha;
pub mod builder;
pub mod color;
pub mod components;
pub mod config;
pub mod effect_stack;
pub mod envelope;
pub mod laws;
pub mod layout;
pub mod lifetime;
pub mod phase;
pub mod scalar;
pub mod spatial;
pub mod storage;
pub mod wave;

pub use allocator::{MeshTag, MeshTagAllocator};
pub use alpha::AlphaEffect;
pub use builder::{BuilderModel, EffectBuilder, EffectModifier, LastEffect};
pub use color::{BlendMode, ColorEffect, CompositeMode};
pub use components::{SpriteIndex, Vfx, VfxBroadcast, VfxGhostBuffer};
pub use config::{AtlasDimensions, HirundoPlugin};
pub use effect_stack::{Effect, EffectStack};
pub use envelope::{AmplitudeEnvelope, Envelope, FrequencyEnvelope, GrowthMode};
pub use lifetime::Lifetime;
pub use phase::Phase;
pub use scalar::{Scalar, Vec2, Vec4};
pub use storage::{dehydrate_vfx, hydrate_vfx, EffectStorageData, VfxError};
pub use spatial::{Anchor, Intensity, SpatialEffect, SpatialKind};
pub use wave::{Amplitude, Bias, Frequency, Wave, WaveKind, WavePhase, WavePhaseCenter};

verus! {

/// Number of effects one stack holds at once.
pub const MAX_FX: usize = 6;

/// Number of spatial sub-effects one effect holds.
pub const MAX_SPATIAL_FX: usize = 3;

/// Number of color sub-effects one effect holds.
pub const MAX_COLOR_FX: usize = 3;

/// Number of rows in the storage array, one per live sprite.
pub const MAX_VFX_ENTITIES: usize = 500;

} // verus!
