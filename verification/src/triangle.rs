//! The example drawable: one triangle with a colour at each corner.

use vstd::prelude::*;
use crate::buffer::Buffer;
use crate::context::WgpuContext;
use crate::pass::DrawCall;
use crate::pipeline::{PipelineView, RenderPipeline};
use crate::shader::{shader_label_spec, ShaderSource};
use crate::usage::BufferUsages;
use crate::camera::Scalar;
use crate::vertex::{
    packed_offset,
    ComponentType,
    VertexBufferLayout,
    VertexFormat,
};

verus! {

/// An attribute of 32-bit floats takes four bytes for each component.
pub proof fn lemma_float32_size(format: VertexFormat)
    requires
        format.component == ComponentType::Float32,
    ensures
        format.size_spec() == 4 * format.components,
{
}

/// The formats of the attributes of a triangle vertex: a position of three
/// floats, a texture coordinate of two and a colour of four.
pub open spec fn triangle_vertex_formats() -> Seq<VertexFormat> {
    seq![
        VertexFormat { components: 3, component: ComponentType::Float32 },
        VertexFormat { components: 2, component: ComponentType::Float32 },
        VertexFormat { components: 4, component: ComponentType::Float32 },
    ]
}

/// A vertex of the triangle: where it is, where it lies on a texture, and
/// its colour.
#[derive(Clone, Copy, Debug)]
pub struct TriangleVertex {
    pub position: [Scalar; 3],
    pub uv: [Scalar; 2],
    pub color: [Scalar; 4],
}

impl TriangleVertex {
    /// The number of bytes one vertex takes in memory.
    pub const BYTE_SIZE: u64 = 36;

    /// The vertex as it lies in the vertex buffer: nine 32-bit words.
    pub open spec fn words(self) -> Seq<u32> {
        seq![
            self.position@[0].bits,
            self.position@[1].bits,
            self.position@[2].bits,
            self.uv@[0].bits,
            self.uv@[1].bits,
            self.color@[0].bits,
            self.color@[1].bits,
            self.color@[2].bits,
            self.color@[3].bits,
        ]
    }

    pub fn new(position: [Scalar; 3], uv: [Scalar; 2], color: [Scalar; 4]) -> (vertex:
        TriangleVertex)
        ensures
            vertex.position == position,
            vertex.uv == uv,
            vertex.color == color,
    {
        TriangleVertex { position, uv, color }
    }

    /// The layout of the vertex buffer: position at offset 0, texture
    /// coordinate at 12, colour at 20, 36 bytes a vertex, at the shader
    /// locations 0, 1 and 2.
    pub fn desc() -> (layout: VertexBufferLayout)
        ensures
            layout.describes(triangle_vertex_formats()),
            layout.array_stride == TriangleVertex::BYTE_SIZE,
            layout.attributes@.len() == 3,
            layout.attributes@[0].offset == 0,
            layout.attributes@[1].offset == 12,
            layout.attributes@[2].offset == 20,
    {
        let mut formats: Vec<VertexFormat> = Vec::new();
        formats.push(VertexFormat::new(3, ComponentType::Float32));
        formats.push(VertexFormat::new(2, ComponentType::Float32));
        formats.push(VertexFormat::new(4, ComponentType::Float32));
        proof {
            assert(formats@ =~= triangle_vertex_formats());
            lemma_float32_size(formats@[0]);
            lemma_float32_size(formats@[1]);
            lemma_float32_size(formats@[2]);
            assert(packed_offset(formats@, 0) == 0);
            assert(packed_offset(formats@, 1) == 12);
            assert(packed_offset(formats@, 2) == 20);
            assert(packed_offset(formats@, 3) == 36);
        }
        let layout = VertexBufferLayout::packed(&formats);
        proof {
            assert(layout.attributes@[0].offset == packed_offset(formats@, 0) as u64);
            assert(layout.attributes@[1].offset == packed_offset(formats@, 1) as u64);
            assert(layout.attributes@[2].offset == packed_offset(formats@, 2) as u64);
        }
        layout
    }

    /// The vertex as it lies in the vertex buffer; as many bytes as the
    /// layout's stride.
    pub fn to_words(&self) -> (words: [u32; 9])
        ensures
            words@ == self.words(),
            words@.len() * 4 == TriangleVertex::BYTE_SIZE,
    {
        let words: [u32; 9] = [
            self.position[0].bits,
            self.position[1].bits,
            self.position[2].bits,
            self.uv[0].bits,
            self.uv[1].bits,
            self.color[0].bits,
            self.color[1].bits,
            self.color[2].bits,
            self.color[3].bits,
        ];
        proof {
            assert(words@ =~= self.words());
        }
        words
    }
}

/// A triangle: the pipeline that draws it and the buffer of its vertices.
pub struct Triangle {
    pipeline: RenderPipeline,
    vtx_buf: Buffer,
}

impl Triangle {
    /// The number of vertices.
    pub const VERTEX_COUNT: u32 = 3;

    pub closed spec fn pipeline_spec(&self) -> PipelineView {
        self.pipeline@
    }

    pub closed spec fn vertex_buffer_spec(&self) -> Buffer {
        self.vtx_buf
    }

    /// Describes the triangle for the surface of `ctx`: a pipeline that
    /// compiles `shader_source`, reads one packed vertex buffer and uses one
    /// bind group layout, the camera's; and a vertex buffer of three
    /// vertices.
    pub fn new(ctx: &WgpuContext, shader_source: String) -> (triangle: Triangle)
        ensures
            triangle.pipeline_spec() == PipelineView::standard(
                triangle.pipeline_spec().shader,
                triangle.pipeline_spec().buffers,
                1,
                ctx@.config.format,
            ),
            triangle.pipeline_spec().shader.source matches Some(text) && text@ == shader_source@,
            triangle.pipeline_spec().shader.label matches Some(label) && label@
                == shader_label_spec("simple triangle pipeline"@),
            triangle.pipeline_spec().buffers.len() == 1,
            triangle.pipeline_spec().buffers[0].describes(triangle_vertex_formats()),
            triangle.vertex_buffer_spec()@.size == 3 * TriangleVertex::BYTE_SIZE,
            triangle.vertex_buffer_spec()@.usages.bits == BufferUsages::VERTEX,
            !triangle.vertex_buffer_spec()@.mapped,
    {
        let mut buffers: Vec<VertexBufferLayout> = Vec::new();
        buffers.push(TriangleVertex::desc());
        let pipeline = RenderPipeline::new(
            ctx,
            ShaderSource::SourceCode(shader_source),
            buffers,
            1,
            Some("simple triangle pipeline"),
        );
        let vtx_buf = Buffer::new(
            3 * TriangleVertex::BYTE_SIZE,
            BufferUsages::from_bits(BufferUsages::VERTEX),
            false,
        );
        Triangle { pipeline, vtx_buf }
    }

    /// The corners: top, bottom left, bottom right, in red, green and blue.
    pub fn vertices() -> (vertices: [TriangleVertex; 3])
        ensures
            vertices@[0].words() == seq![
                0u32,
                Scalar::HALF_BITS,
                0u32,
                0u32,
                0u32,
                Scalar::ONE_BITS,
                0u32,
                0u32,
                Scalar::ONE_BITS,
            ],
            vertices@[1].words() == seq![
                Scalar::MINUS_HALF_BITS,
                Scalar::MINUS_HALF_BITS,
                0u32,
                0u32,
                0u32,
                0u32,
                Scalar::ONE_BITS,
                0u32,
                Scalar::ONE_BITS,
            ],
            vertices@[2].words() == seq![
                Scalar::HALF_BITS,
                Scalar::MINUS_HALF_BITS,
                0u32,
                0u32,
                0u32,
                0u32,
                0u32,
                Scalar::ONE_BITS,
                Scalar::ONE_BITS,
            ],
    {
        let o = Scalar::zero();
        let i = Scalar::one();
        let h = Scalar::from_bits(Scalar::HALF_BITS);
        let m = Scalar::from_bits(Scalar::MINUS_HALF_BITS);
        let top = TriangleVertex::new([o, h, o], [o, o], [i, o, o, i]);
        let left = TriangleVertex::new([m, m, o], [o, o], [o, i, o, i]);
        let right = TriangleVertex::new([h, m, o], [o, o], [o, o, i, i]);
        [top, left, right]
    }

    pub fn pipeline(&self) -> (pipeline: &RenderPipeline)
        ensures
            pipeline@ == self.pipeline_spec(),
    {
        &self.pipeline
    }

    pub fn vertex_buffer(&self) -> (buffer: Buffer)
        ensures
            buffer == self.vertex_buffer_spec(),
    {
        self.vtx_buf
    }

    /// The debug label of the vertex buffer.
    pub fn vertex_buffer_label() -> (label: &'static str)
        ensures
            label@ == "triangle vertex buffer"@,
    {
        "triangle vertex buffer"
    }

    /// The draw of the triangle: all three vertices from slot 0, once.
    pub fn render(&self) -> (draw: DrawCall)
        ensures
            draw == (DrawCall {
                vertex_buffer_slot: 0,
                first_vertex: 0,
                end_vertex: Triangle::VERTEX_COUNT,
                first_instance: 0,
                end_instance: 1,
            }),
    {
        DrawCall {
            vertex_buffer_slot: 0,
            first_vertex: 0,
            end_vertex: Triangle::VERTEX_COUNT,
            first_instance: 0,
            end_instance: 1,
        }
    }
}

} // verus!
