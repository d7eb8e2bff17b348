//! Texture sampling settings: the texture unit a sampler reads from and
//! the filtering and wrapping methods applied to lookups.

use vstd::prelude::*;

verus! {

/// One of the texture units a sampler uniform can be pointed at.
#[derive(Debug, Clone, Copy, PartialEq, Eq, Structural)]
pub enum GlTextureUnit {
    Unit0,
    Unit1,
    Unit2,
    Unit3,
    Unit4,
    Unit5,
    Unit6,
    Unit7,
}

impl GlTextureUnit {
    /// The unit's number.
    pub open spec fn unit_number(&self) -> i32 {
        match self {
            GlTextureUnit::Unit0 => 0,
            GlTextureUnit::Unit1 => 1,
            GlTextureUnit::Unit2 => 2,
            GlTextureUnit::Unit3 => 3,
            GlTextureUnit::Unit4 => 4,
            GlTextureUnit::Unit5 => 5,
            GlTextureUnit::Unit6 => 6,
            GlTextureUnit::Unit7 => 7,
        }
    }

    /// The unit's number, as a sampler uniform takes it.
    pub fn to_int(&self) -> (r: i32)
        ensures
            r == self.unit_number(),
    {
        match self {
            GlTextureUnit::Unit0 => 0,
            GlTextureUnit::Unit1 => 1,
            GlTextureUnit::Unit2 => 2,
            GlTextureUnit::Unit3 => 3,
            GlTextureUnit::Unit4 => 4,
            GlTextureUnit::Unit5 => 5,
            GlTextureUnit::Unit6 => 6,
            GlTextureUnit::Unit7 => 7,
        }
    }
}

/// The interpolation applied when a texture is displayed smaller than its
/// stored size. Later variants are higher quality and higher cost.
#[derive(Debug, Clone, Copy, PartialEq, Eq, Structural)]
pub enum MinMethod {
    /// Take the value of the texel nearest to the pixel center.
    Nearest,
    /// Take the weighted average of the four texels nearest to the pixel.
    Linear,
    /// Pick the best mipmap, then sample it by the nearest texel.
    NearestMipmapNearest,
    /// Pick the best mipmap, then sample it linearly.
    NearestMipmapLinear,
    /// Pick the two best mipmaps, sample each by the nearest texel, and
    /// average the two values.
    LinearMipmapNearest,
    /// Pick the two best mipmaps, sample each linearly, and average the two
    /// values.
    LinearMipmapLinear,
}

/// The interpolation applied when a texture is displayed larger than its
/// stored size.
#[derive(Debug, Clone, Copy, PartialEq, Eq, Structural)]
pub enum MagMethod {
    /// Take the value of the texel nearest to the pixel center.
    Nearest,
    /// Take the weighted average of the four texels nearest to the pixel.
    Linear,
}

/// How texture coordinates outside the unit range are handled.
#[derive(Debug, Clone, Copy, PartialEq, Eq, Structural)]
pub enum WrapMethod {
    /// Repeat the texture.
    Repeat,
    /// Repeat the texture, mirrored at every seam.
    MirroredRepeat,
    /// Clamp coordinates to the texture's edge.
    ClampToEdge,
}

} // verus!
