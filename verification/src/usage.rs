//! Usage and visibility flag sets, kept as the bit patterns the GPU interface
//! assigns to them.

use vstd::prelude::*;

verus! {

/// The ways a texture may be used.
#[derive(Clone, Copy, Debug, PartialEq, Eq, Structural)]
pub struct TextureUsages {
    pub bits: u32,
}

impl TextureUsages {
    pub const COPY_SRC: u32 = 1;
    pub const COPY_DST: u32 = 2;
    pub const TEXTURE_BINDING: u32 = 4;
    pub const STORAGE_BINDING: u32 = 8;
    pub const RENDER_ATTACHMENT: u32 = 16;

    /// The usage of a texture that is only ever rendered to.
    pub fn render_attachment() -> (usages: TextureUsages)
        ensures
            usages.bits == TextureUsages::RENDER_ATTACHMENT,
    {
        TextureUsages { bits: TextureUsages::RENDER_ATTACHMENT }
    }
}

/// The ways a buffer may be used.
#[derive(Clone, Copy, Debug, PartialEq, Eq, Structural)]
pub struct BufferUsages {
    pub bits: u32,
}

impl BufferUsages {
    pub const MAP_READ: u32 = 1;
    pub const MAP_WRITE: u32 = 2;
    pub const COPY_SRC: u32 = 4;
    pub const COPY_DST: u32 = 8;
    pub const INDEX: u32 = 16;
    pub const VERTEX: u32 = 32;
    pub const UNIFORM: u32 = 64;
    pub const STORAGE: u32 = 128;
    pub const INDIRECT: u32 = 256;
    pub const QUERY_RESOLVE: u32 = 512;

    pub fn from_bits(bits: u32) -> (usages: BufferUsages)
        ensures
            usages.bits == bits,
    {
        BufferUsages { bits }
    }

    /// The set that holds every usage of `self` and of `other`.
    pub fn union(self, other: BufferUsages) -> (usages: BufferUsages)
        ensures
            usages.bits == self.bits | other.bits,
    {
        BufferUsages { bits: self.bits | other.bits }
    }

    /// Whether every usage of `other` is also one of `self`.
    pub fn contains(self, other: BufferUsages) -> (held: bool)
        ensures
            held == (self.bits & other.bits == other.bits),
    {
        self.bits & other.bits == other.bits
    }
}

/// The shader stages that can see a binding.
#[derive(Clone, Copy, Debug, PartialEq, Eq, Structural)]
pub struct ShaderStages {
    pub bits: u32,
}

impl ShaderStages {
    pub const NONE: u32 = 0;
    pub const VERTEX: u32 = 1;
    pub const FRAGMENT: u32 = 2;
    pub const COMPUTE: u32 = 4;
    pub const VERTEX_FRAGMENT: u32 = 3;

    /// Visible to the vertex and to the fragment stage of a render pipeline.
    pub fn vertex_fragment() -> (stages: ShaderStages)
        ensures
            stages.bits == ShaderStages::VERTEX | ShaderStages::FRAGMENT,
            stages.bits == ShaderStages::VERTEX_FRAGMENT,
    {
        assert(1u32 | 2u32 == 3u32) by (bit_vector);
        ShaderStages { bits: ShaderStages::VERTEX_FRAGMENT }
    }
}

} // verus!
