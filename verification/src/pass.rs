//! The one render pass of a frame, and what is drawn in it.

use vstd::prelude::*;
use crate::camera::Scalar;

verus! {

/// A colour of four double-precision channels, each kept as its IEEE 754
/// bit pattern.
#[derive(Clone, Copy, Debug, PartialEq, Eq, Structural)]
pub struct Color {
    pub r: u64,
    pub g: u64,
    pub b: u64,
    pub a: u64,
}

impl Color {
    /// The bit pattern of `0.807`.
    pub const CLEAR_RED: u64 = 0x3FE9_D2F1_A9FB_E76D;
    /// The bit pattern of `1.0`.
    pub const CLEAR_GREEN: u64 = 0x3FF0_0000_0000_0000;
    /// The bit pattern of `0.101`.
    pub const CLEAR_BLUE: u64 = 0x3FB9_DB22_D0E5_6042;
    /// The bit pattern of `1.0`.
    pub const CLEAR_ALPHA: u64 = 0x3FF0_0000_0000_0000;
}

/// How the main render pass starts and ends: both attachments are cleared
/// first and stored afterwards.
#[derive(Clone, Copy, Debug, PartialEq, Eq, Structural)]
pub struct RenderPass {
    pub clear_color: Color,
    pub store_color: bool,
    /// The depth that the depth buffer is cleared to.
    pub clear_depth: Scalar,
    pub store_depth: bool,
    /// Whether the pass touches the stencil aspect.
    pub uses_stencil: bool,
    /// Whether the colour attachment is resolved into another.
    pub resolves: bool,
}

impl RenderPass {
    /// The pass of every frame: an opaque yellow-green background, depth
    /// cleared to `1.0`, the farthest value; no stencil, no resolve.
    pub open spec fn main_spec() -> RenderPass {
        RenderPass {
            clear_color: Color {
                r: Color::CLEAR_RED,
                g: Color::CLEAR_GREEN,
                b: Color::CLEAR_BLUE,
                a: Color::CLEAR_ALPHA,
            },
            store_color: true,
            clear_depth: Scalar::one(),
            store_depth: true,
            uses_stencil: false,
            resolves: false,
        }
    }

    #[verifier::when_used_as_spec(main_spec)]
    pub fn main() -> (pass: RenderPass)
        ensures
            pass == RenderPass::main_spec(),
    {
        RenderPass {
            clear_color: Color {
                r: Color::CLEAR_RED,
                g: Color::CLEAR_GREEN,
                b: Color::CLEAR_BLUE,
                a: Color::CLEAR_ALPHA,
            },
            store_color: true,
            clear_depth: Scalar::one(),
            store_depth: true,
            uses_stencil: false,
            resolves: false,
        }
    }

    /// The debug label of the command encoder that records the pass.
    pub fn encoder_label() -> (label: &'static str)
        ensures
            label@ == "main command encoder"@,
    {
        "main command encoder"
    }

    /// The debug label of the pass.
    pub fn label() -> (label: &'static str)
        ensures
            label@ == "main render pass"@,
    {
        "main render pass"
    }
}

/// One draw of a drawable: which vertex buffer slot it reads and which
/// vertices and instances it covers, as half-open ranges.
#[derive(Clone, Copy, Debug, PartialEq, Eq, Structural)]
pub struct DrawCall {
    pub vertex_buffer_slot: u32,
    pub first_vertex: u32,
    pub end_vertex: u32,
    pub first_instance: u32,
    pub end_instance: u32,
}

} // verus!
