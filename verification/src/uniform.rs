//! The uniforms that every shader of a frame reads.

use vstd::prelude::*;
use crate::binding::{BindGroupLayoutEntry, UniformBinding};
use crate::buffer::Buffer;
use crate::camera::{Matrix4, Scalar};
use crate::usage::BufferUsages;

verus! {

/// The global uniform block: time, frame time, frame count, one word of
/// padding that keeps the matrix 16-byte aligned, and the screen's view
/// matrix.
#[derive(Clone, Copy, Debug, PartialEq, Eq, Structural)]
pub struct GlobalsUniform {
    /// Seconds since the application started.
    pub time: Scalar,
    /// Seconds since the last frame.
    pub dt: Scalar,
    /// Frames drawn so far.
    pub frames: u32,
    /// Maps pixel coordinates of the screen to clip space.
    pub view_matrix: Matrix4,
}

impl GlobalsUniform {
    /// The number of bytes the block takes in a buffer.
    pub const BYTE_SIZE: u64 = 80;

    /// The bit pattern of `16.6666`, the frame time assumed before the
    /// first frame.
    pub const FIRST_DT_BITS: u32 = 0x4185_5532;

    /// The block before the first frame.
    pub open spec fn initial_spec(view_matrix: Matrix4) -> GlobalsUniform {
        GlobalsUniform {
            time: Scalar::zero(),
            dt: Scalar { bits: GlobalsUniform::FIRST_DT_BITS },
            frames: 0,
            view_matrix,
        }
    }

    /// The words of the block in the order shaders read them.
    pub open spec fn words(self) -> Seq<u32> {
        seq![self.time.bits, self.dt.bits, self.frames, 0u32] + self.view_matrix.words()
    }

    #[verifier::when_used_as_spec(initial_spec)]
    pub fn initial(view_matrix: Matrix4) -> (block: GlobalsUniform)
        ensures
            block == GlobalsUniform::initial_spec(view_matrix),
    {
        GlobalsUniform {
            time: Scalar::zero(),
            dt: Scalar::from_bits(GlobalsUniform::FIRST_DT_BITS),
            frames: 0,
            view_matrix,
        }
    }

    /// The block as shaders read it: twenty 32-bit words.
    pub fn to_words(&self) -> (words: [u32; 20])
        ensures
            words@ == self.words(),
            words@.len() * 4 == GlobalsUniform::BYTE_SIZE,
    {
        let m = self.view_matrix;
        let words: [u32; 20] = [
            self.time.bits,
            self.dt.bits,
            self.frames,
            0,
            m.x.x.bits,
            m.x.y.bits,
            m.x.z.bits,
            m.x.w.bits,
            m.y.x.bits,
            m.y.y.bits,
            m.y.z.bits,
            m.y.w.bits,
            m.z.x.bits,
            m.z.y.bits,
            m.z.z.bits,
            m.z.w.bits,
            m.w.x.bits,
            m.w.y.bits,
            m.w.z.bits,
            m.w.w.bits,
        ];
        proof {
            assert(words@ =~= self.words());
        }
        words
    }
}

/// The global uniforms: their buffer and their bind group.
pub struct Globals {
    uniform: GlobalsUniform,
}

impl View for Globals {
    type V = GlobalsUniform;

    closed spec fn view(&self) -> GlobalsUniform {
        self.uniform
    }
}

impl Globals {
    /// The globals before the first frame. `view_matrix` is the screen's
    /// view matrix, computed by the caller.
    pub fn new(view_matrix: Matrix4) -> (globals: Globals)
        ensures
            globals@ == GlobalsUniform::initial(view_matrix),
    {
        Globals { uniform: GlobalsUniform::initial(view_matrix) }
    }

    pub fn uniform(&self) -> (uniform: GlobalsUniform)
        ensures
            uniform == self@,
    {
        self.uniform
    }

    /// The buffer that holds the block: exactly as large as the block,
    /// usable as a uniform and as the target of copies.
    pub fn buffer(&self) -> (buffer: Buffer)
        ensures
            buffer@.size == GlobalsUniform::BYTE_SIZE,
            buffer@.usages.bits == BufferUsages::UNIFORM | BufferUsages::COPY_DST,
            !buffer@.mapped,
    {
        let usages = BufferUsages::from_bits(BufferUsages::UNIFORM).union(
            BufferUsages::from_bits(BufferUsages::COPY_DST),
        );
        Buffer::new(GlobalsUniform::BYTE_SIZE, usages, false)
    }

    /// The debug label of the buffer.
    pub fn buffer_label() -> (label: &'static str)
        ensures
            label@ == "global uniform buffer"@,
    {
        "global uniform buffer"
    }

    /// The one entry of the bind group layout: the block as a uniform
    /// buffer at binding index 0, seen by the vertex and fragment stages.
    pub fn bindgroup_layout_entries() -> (entries: [BindGroupLayoutEntry; 1])
        ensures
            entries@ == seq![BindGroupLayoutEntry::uniform(0)],
    {
        let entries: [BindGroupLayoutEntry; 1] = [BindGroupLayoutEntry::uniform(0)];
        proof {
            assert(entries@ =~= seq![BindGroupLayoutEntry::uniform(0)]);
        }
        entries
    }

    /// The bind group of the block and its layout.
    pub fn binding() -> (binding: UniformBinding)
        ensures
            binding.exposes_buffer("global bindgroup layout"@, "global bindgroup"@),
    {
        UniformBinding::new("global bindgroup layout", "global bindgroup")
    }
}

} // verus!
