//! Configuration: the sprite atlas and the plugin's settings.
use vstd::prelude::*;

use crate::scalar::{Scalar, Vec2};

verus! {

/// Bit pattern of `1024.0`.
pub const TEXTURE_EDGE_BITS: u32 = 0x4480_0000;

/// Bit pattern of `40.0`.
pub const CELL_EDGE_BITS: u32 = 0x4220_0000;

/// Bit pattern of `32.0`.
pub const SPRITE_EDGE_BITS: u32 = 0x4200_0000;

/// Bit pattern of `4.0`.
pub const PADDING_BITS: u32 = 0x4080_0000;

/// Geometry of the sprite atlas, in pixels.
#[derive(Clone, Copy, Debug, PartialEq, Eq, Structural)]
pub struct AtlasDimensions {
    pub texture_size: Vec2,
    pub cell_size: Vec2,
    pub sprite_size: Vec2,
    pub padding: Vec2,
}

impl AtlasDimensions {
    /// A 1024 x 1024 texture of 40-pixel cells holding 32-pixel sprites, 4 pixels apart.
    pub open spec fn spec_default() -> AtlasDimensions {
        AtlasDimensions {
            texture_size: Vec2::of(TEXTURE_EDGE_BITS, TEXTURE_EDGE_BITS),
            cell_size: Vec2::of(CELL_EDGE_BITS, CELL_EDGE_BITS),
            sprite_size: Vec2::of(SPRITE_EDGE_BITS, SPRITE_EDGE_BITS),
            padding: Vec2::of(PADDING_BITS, PADDING_BITS),
        }
    }
}

impl Default for AtlasDimensions {
    fn default() -> (r: AtlasDimensions)
        ensures
            r == AtlasDimensions::spec_default(),
    {
        let square = |bits: u32| -> (v: Vec2)
            ensures
                v == Vec2::of(bits, bits),
            { Vec2::new(Scalar::from_bits(bits), Scalar::from_bits(bits)) };
        AtlasDimensions {
            texture_size: square(TEXTURE_EDGE_BITS),
            cell_size: square(CELL_EDGE_BITS),
            sprite_size: square(SPRITE_EDGE_BITS),
            padding: square(PADDING_BITS),
        }
    }
}

/// The effect engine's settings: atlas texture, its geometry, and whether to spawn a
/// camera with pan and zoom controls.
#[derive(Clone, Debug)]
pub struct HirundoPlugin {
    pub texture_path: String,
    pub atlas_dimensions: AtlasDimensions,
    pub with_camera: bool,
}

impl HirundoPlugin {
    /// Turns on the camera.
    pub fn with_camera(self) -> (r: HirundoPlugin)
        ensures
            r.with_camera,
            r.texture_path@ == self.texture_path@,
            r.atlas_dimensions == self.atlas_dimensions,
    {
        let mut p = self;
        p.with_camera = true;
        p
    }

    /// Sets the atlas texture's path.
    pub fn with_texture(self, path: &str) -> (r: HirundoPlugin)
        ensures
            r.texture_path@ == path@,
            r.atlas_dimensions == self.atlas_dimensions,
            r.with_camera == self.with_camera,
    {
        let mut p = self;
        p.texture_path = path.to_owned();
        p
    }

    /// Sets the atlas geometry.
    pub fn with_atlas(self, atlas: AtlasDimensions) -> (r: HirundoPlugin)
        ensures
            r.atlas_dimensions == atlas,
            r.texture_path@ == self.texture_path@,
            r.with_camera == self.with_camera,
    {
        let mut p = self;
        p.atlas_dimensions = atlas;
        p
    }

    /// Sets the atlas cell size.
    pub fn with_cell_size(self, size: Vec2) -> (r: HirundoPlugin)
        ensures
            r.atlas_dimensions == (AtlasDimensions { cell_size: size, ..self.atlas_dimensions }),
            r.texture_path@ == self.texture_path@,
            r.with_camera == self.with_camera,
    {
        let mut p = self;
        p.atlas_dimensions.cell_size = size;
        p
    }

    /// Sets the sprite size within a cell.
    pub fn with_sprite_size(self, size: Vec2) -> (r: HirundoPlugin)
        ensures
            r.atlas_dimensions == (AtlasDimensions { sprite_size: size, ..self.atlas_dimensions }),
            r.texture_path@ == self.texture_path@,
            r.with_camera == self.with_camera,
    {
        let mut p = self;
        p.atlas_dimensions.sprite_size = size;
        p
    }

    /// Sets the texture size.
    pub fn with_texture_size(self, size: Vec2) -> (r: HirundoPlugin)
        ensures
            r.atlas_dimensions == (AtlasDimensions { texture_size: size, ..self.atlas_dimensions }),
            r.texture_path@ == self.texture_path@,
            r.with_camera == self.with_camera,
    {
        let mut p = self;
        p.atlas_dimensions.texture_size = size;
        p
    }

    /// Sets the padding between cells.
    pub fn with_padding(self, size: Vec2) -> (r: HirundoPlugin)
        ensures
            r.atlas_dimensions == (AtlasDimensions { padding: size, ..self.atlas_dimensions }),
            r.texture_path@ == self.texture_path@,
            r.with_camera == self.with_camera,
    {
        let mut p = self;
        p.atlas_dimensions.padding = size;
        p
    }
}

impl Default for HirundoPlugin {
    fn default() -> (r: HirundoPlugin)
        ensures
            r.texture_path@ == "32roguesTextureV2.png"@,
            r.atlas_dimensions == AtlasDimensions::spec_default(),
            !r.with_camera,
    {
        HirundoPlugin {
            texture_path: "32roguesTextureV2.png".to_owned(),
            atlas_dimensions: AtlasDimensions::default(),
            with_camera: false,
        }
    }
}

} // verus!
