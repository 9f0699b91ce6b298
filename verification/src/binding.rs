//! Bind groups: the fixed-shape sets of resources that shaders reach by
//! binding index.

use vstd::prelude::*;
use crate::usage::ShaderStages;

verus! {

/// How a shader reads a bound buffer.
#[derive(Clone, Copy, Debug, PartialEq, Eq, Structural)]
pub enum BufferBindingType {
    Uniform,
    Storage,
    ReadOnlyStorage,
}

/// One slot of a bind group layout, for a buffer.
#[derive(Clone, Copy, Debug, PartialEq, Eq, Structural)]
pub struct BindGroupLayoutEntry {
    pub binding: u32,
    pub visibility: ShaderStages,
    pub ty: BufferBindingType,
    pub has_dynamic_offset: bool,
    pub min_binding_size: Option<u64>,
    pub count: Option<u32>,
}

/// One resource of a bind group: a range of a buffer.
#[derive(Clone, Copy, Debug, PartialEq, Eq, Structural)]
pub struct BindGroupEntry {
    pub binding: u32,
    pub offset: u64,
    /// The number of bytes bound, or the whole rest of the buffer.
    pub size: Option<u64>,
}

impl BindGroupLayoutEntry {
    /// The slot of a uniform buffer at `binding` that the vertex and the
    /// fragment stage both read, bound without a dynamic offset.
    pub open spec fn uniform_spec(binding: u32) -> BindGroupLayoutEntry {
        BindGroupLayoutEntry {
            binding,
            visibility: ShaderStages { bits: ShaderStages::VERTEX_FRAGMENT },
            ty: BufferBindingType::Uniform,
            has_dynamic_offset: false,
            min_binding_size: None,
            count: None,
        }
    }

    #[verifier::when_used_as_spec(uniform_spec)]
    pub fn uniform(binding: u32) -> (entry: BindGroupLayoutEntry)
        ensures
            entry == BindGroupLayoutEntry::uniform_spec(binding),
    {
        BindGroupLayoutEntry {
            binding,
            visibility: ShaderStages::vertex_fragment(),
            ty: BufferBindingType::Uniform,
            has_dynamic_offset: false,
            min_binding_size: None,
            count: None,
        }
    }
}

impl BindGroupEntry {
    /// The whole of a buffer, bound at `binding`.
    pub open spec fn entire_buffer_spec(binding: u32) -> BindGroupEntry {
        BindGroupEntry { binding, offset: 0, size: None }
    }

    #[verifier::when_used_as_spec(entire_buffer_spec)]
    pub fn entire_buffer(binding: u32) -> (entry: BindGroupEntry)
        ensures
            entry == BindGroupEntry::entire_buffer_spec(binding),
    {
        BindGroupEntry { binding, offset: 0, size: None }
    }
}

/// A bind group of one uniform buffer together with its layout.
#[derive(Debug)]
pub struct UniformBinding {
    pub layout_label: String,
    pub layout_entries: Vec<BindGroupLayoutEntry>,
    pub group_label: String,
    pub group_entries: Vec<BindGroupEntry>,
}

impl UniformBinding {
    /// The binding exposes one whole uniform buffer at index 0 to the
    /// vertex and the fragment stage, under the given labels.
    pub open spec fn exposes_buffer(&self, layout_label: Seq<char>, group_label: Seq<char>) -> bool {
        &&& self.layout_label@ == layout_label
        &&& self.group_label@ == group_label
        &&& self.layout_entries@ == seq![BindGroupLayoutEntry::uniform(0)]
        &&& self.group_entries@ == seq![BindGroupEntry::entire_buffer(0)]
    }

    /// Describes the bind group, and its layout, of a single uniform buffer
    /// at binding index 0.
    pub fn new(layout_label: &str, group_label: &str) -> (binding: UniformBinding)
        ensures
            binding.exposes_buffer(layout_label@, group_label@),
    {
        let mut layout_entries: Vec<BindGroupLayoutEntry> = Vec::new();
        layout_entries.push(BindGroupLayoutEntry::uniform(0));
        let mut group_entries: Vec<BindGroupEntry> = Vec::new();
        group_entries.push(BindGroupEntry::entire_buffer(0));
        proof {
            assert(layout_entries@ =~= seq![BindGroupLayoutEntry::uniform(0)]);
            assert(group_entries@ =~= seq![BindGroupEntry::entire_buffer(0)]);
        }
        UniformBinding {
            layout_label: layout_label.to_owned(),
            layout_entries,
            group_label: group_label.to_owned(),
            group_entries,
        }
    }
}

} // verus!
