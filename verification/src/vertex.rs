//! Vertex buffer layouts: an ordered schema of attributes, each a number of
//! components of one type, packed without gaps.

use vstd::prelude::*;

verus! {

/// The type of one component of a vertex attribute.
#[derive(Clone, Copy, Debug, PartialEq, Eq, Structural)]
pub enum ComponentType {
    Uint8,
    Sint8,
    Unorm8,
    Snorm8,
    Uint16,
    Sint16,
    Unorm16,
    Snorm16,
    Float16,
    Float32,
    Uint32,
    Sint32,
    Float64,
}

impl ComponentType {
    /// The number of bytes one component takes.
    pub open spec fn byte_size_spec(self) -> nat {
        match self {
            ComponentType::Uint8 | ComponentType::Sint8 | ComponentType::Unorm8
            | ComponentType::Snorm8 => 1,
            ComponentType::Uint16 | ComponentType::Sint16 | ComponentType::Unorm16
            | ComponentType::Snorm16 | ComponentType::Float16 => 2,
            ComponentType::Float32 | ComponentType::Uint32 | ComponentType::Sint32 => 4,
            ComponentType::Float64 => 8,
        }
    }

    pub fn byte_size(self) -> (size: u64)
        ensures
            size == self.byte_size_spec(),
    {
        match self {
            ComponentType::Uint8 | ComponentType::Sint8 | ComponentType::Unorm8
            | ComponentType::Snorm8 => 1,
            ComponentType::Uint16 | ComponentType::Sint16 | ComponentType::Unorm16
            | ComponentType::Snorm16 | ComponentType::Float16 => 2,
            ComponentType::Float32 | ComponentType::Uint32 | ComponentType::Sint32 => 4,
            ComponentType::Float64 => 8,
        }
    }
}

/// The format of a vertex attribute: so many components of one type.
#[derive(Clone, Copy, Debug, PartialEq, Eq, Structural)]
pub struct VertexFormat {
    pub components: u8,
    pub component: ComponentType,
}

impl VertexFormat {
    /// Whether the format is one a vertex shader can take: one to four
    /// components of four or eight bytes each, or two or four smaller ones.
    pub open spec fn is_supported_spec(self) -> bool {
        if self.component.byte_size_spec() < 4 {
            self.components == 2 || self.components == 4
        } else {
            1 <= self.components <= 4
        }
    }

    /// The number of bytes the attribute takes in a vertex.
    pub open spec fn size_spec(self) -> nat {
        self.components as nat * self.component.byte_size_spec()
    }

    pub fn new(components: u8, component: ComponentType) -> (format: VertexFormat)
        ensures
            format == (VertexFormat { components, component }),
    {
        VertexFormat { components, component }
    }

    #[verifier::when_used_as_spec(is_supported_spec)]
    pub fn is_supported(self) -> (supported: bool)
        ensures
            supported == self.is_supported_spec(),
    {
        if self.component.byte_size() < 4 {
            self.components == 2 || self.components == 4
        } else {
            1 <= self.components && self.components <= 4
        }
    }

    pub fn size(self) -> (size: u64)
        ensures
            size == self.size_spec(),
            size <= 2040,
    {
        let count: u64 = self.components as u64;
        let each: u64 = self.component.byte_size();
        assert(count * each <= 2040) by (nonlinear_arith)
            requires
                count <= 255,
                each <= 8,
        ;
        count * each
    }
}

/// One attribute of a vertex: where the shader reads it, what it is made
/// of, and where it starts in the vertex.
#[derive(Clone, Copy, Debug, PartialEq, Eq, Structural)]
pub struct VertexAttribute {
    pub shader_location: u32,
    pub format: VertexFormat,
    pub offset: u64,
}

/// Whether the buffer advances per vertex or per instance.
#[derive(Clone, Copy, Debug, PartialEq, Eq, Structural)]
pub enum VertexStepMode {
    Vertex,
    Instance,
}

/// The number of bytes that the first `n` of `formats` take together.
pub open spec fn packed_offset(formats: Seq<VertexFormat>, n: int) -> nat
    decreases n,
{
    if n <= 0 {
        0
    } else {
        packed_offset(formats, n - 1) + formats[n - 1].size_spec()
    }
}

/// `attributes` lays `formats` out in order and without gaps, at the shader
/// locations 0, 1, 2 and so on.
pub open spec fn is_packed(attributes: Seq<VertexAttribute>, formats: Seq<VertexFormat>) -> bool {
    &&& attributes.len() == formats.len()
    &&& forall|i: int|
        0 <= i < formats.len() ==> #[trigger] attributes[i] == (VertexAttribute {
            shader_location: i as u32,
            format: formats[i],
            offset: packed_offset(formats, i) as u64,
        })
}

/// No prefix of a schema takes more than 2040 bytes per attribute.
pub proof fn lemma_packed_offset_bound(formats: Seq<VertexFormat>, n: int)
    requires
        0 <= n <= formats.len(),
    ensures
        packed_offset(formats, n) <= 2040 * n,
    decreases n,
{
    if n > 0 {
        lemma_packed_offset_bound(formats, n - 1);
        let f = formats[n - 1];
        assert(f.size_spec() <= 2040) by (nonlinear_arith)
            requires
                f.components <= 255,
                f.component.byte_size_spec() <= 8,
                f.size_spec() == f.components as nat * f.component.byte_size_spec(),
        ;
    }
}

/// Attributes start where their predecessors end: offsets never decrease
/// along a schema, and each attribute ends before the stride does.
pub proof fn lemma_packed_offset_monotonic(formats: Seq<VertexFormat>, i: int, j: int)
    requires
        0 <= i <= j <= formats.len(),
    ensures
        packed_offset(formats, i) <= packed_offset(formats, j),
        i < j ==> packed_offset(formats, i) + formats[i].size_spec() <= packed_offset(formats, j),
    decreases j - i,
{
    if i < j {
        lemma_packed_offset_monotonic(formats, i, j - 1);
    }
}

/// How a vertex buffer is read: the size of one vertex and its attributes.
#[derive(Debug)]
pub struct VertexBufferLayout {
    pub array_stride: u64,
    pub step_mode: VertexStepMode,
    pub attributes: Vec<VertexAttribute>,
}

impl VertexBufferLayout {
    /// The layout is that of `formats`, tightly packed and read per vertex.
    pub open spec fn describes(&self, formats: Seq<VertexFormat>) -> bool {
        &&& self.array_stride == packed_offset(formats, formats.len() as int)
        &&& self.step_mode == VertexStepMode::Vertex
        &&& is_packed(self.attributes@, formats)
    }

    /// Lays out a vertex whose attributes have the given formats, in
    /// order: shader locations count up from 0, each attribute starts where
    /// the one before it ends, and the stride is the sum of all sizes.
    pub fn packed(formats: &Vec<VertexFormat>) -> (layout: VertexBufferLayout)
        requires
            formats@.len() <= u32::MAX,
        ensures
            layout.describes(formats@),
    {
        let mut attributes: Vec<VertexAttribute> = Vec::new();
        let mut offset: u64 = 0;
        let mut i: usize = 0;
        while i < formats.len()
            invariant
                0 <= i <= formats.len(),
                formats@.len() <= u32::MAX,
                offset == packed_offset(formats@, i as int),
                is_packed(attributes@, formats@.take(i as int)),
            decreases formats.len() - i,
        {
            let format = formats[i];
            let size: u64 = format.size();
            proof {
                lemma_packed_offset_bound(formats@, i as int);
                assert(2040 * (i as int) + 2040 <= u64::MAX) by (nonlinear_arith)
                    requires
                        i < u32::MAX,
                ;
                let before = formats@.take(i as int);
                let after = formats@.take(i as int + 1);
                assert forall|k: int| 0 <= k <= i implies packed_offset(after, k) == packed_offset(
                    formats@,
                    k,
                ) by {
                    lemma_packed_offset_of_prefix(formats@, i as int + 1, k);
                }
                assert forall|k: int| 0 <= k <= i implies packed_offset(before, k)
                    == packed_offset(formats@, k) by {
                    lemma_packed_offset_of_prefix(formats@, i as int, k);
                }
            }
            attributes.push(VertexAttribute { shader_location: i as u32, format, offset });
            offset = offset + size;
            i += 1;
        }
        proof {
            assert(formats@.take(formats@.len() as int) =~= formats@);
        }
        VertexBufferLayout { array_stride: offset, step_mode: VertexStepMode::Vertex, attributes }
    }

    /// Whether one vertex of this layout is exactly `byte_size` bytes, the
    /// size of the structure the vertices are stored as.
    pub fn matches_size(&self, byte_size: u64) -> (matches: bool)
        ensures
            matches == (self.array_stride == byte_size),
    {
        self.array_stride == byte_size
    }
}

/// The offsets within a prefix of a schema are those within the schema.
pub proof fn lemma_packed_offset_of_prefix(formats: Seq<VertexFormat>, n: int, k: int)
    requires
        0 <= k <= n <= formats.len(),
    ensures
        packed_offset(formats.take(n), k) == packed_offset(formats, k),
    decreases k,
{
    if k > 0 {
        lemma_packed_offset_of_prefix(formats, n, k - 1);
        assert(formats.take(n)[k - 1] == formats[k - 1]);
    }
}

} // verus!
