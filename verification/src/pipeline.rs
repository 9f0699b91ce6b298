//! Render pipelines, described in full before the device compiles them.

use vstd::prelude::*;
use crate::context::{DepthFormat, Texture, WgpuContext};
use crate::format::SurfaceFormat;
use crate::shader::{resolve_shader, shader_label_spec, Shader, ShaderSource};
use crate::vertex::VertexBufferLayout;

verus! {

/// How vertices are assembled into primitives.
#[derive(Clone, Copy, Debug, PartialEq, Eq, Structural)]
pub enum PrimitiveTopology {
    PointList,
    LineList,
    LineStrip,
    TriangleList,
    TriangleStrip,
}

/// The winding order of a triangle that faces the viewer.
#[derive(Clone, Copy, Debug, PartialEq, Eq, Structural)]
pub enum FrontFace {
    Ccw,
    Cw,
}

/// A side of a triangle.
#[derive(Clone, Copy, Debug, PartialEq, Eq, Structural)]
pub enum Face {
    Front,
    Back,
}

/// How the inside of a polygon is drawn.
#[derive(Clone, Copy, Debug, PartialEq, Eq, Structural)]
pub enum PolygonMode {
    Fill,
    Line,
    Point,
}

/// The width of the indices of a strip.
#[derive(Clone, Copy, Debug, PartialEq, Eq, Structural)]
pub enum IndexFormat {
    Uint16,
    Uint32,
}

/// The comparison of a depth test.
#[derive(Clone, Copy, Debug, PartialEq, Eq, Structural)]
pub enum CompareFunction {
    Never,
    Less,
    Equal,
    LessEqual,
    Greater,
    NotEqual,
    GreaterEqual,
    Always,
}

/// How a fragment is combined with what the target holds.
#[derive(Clone, Copy, Debug, PartialEq, Eq, Structural)]
pub enum BlendState {
    Replace,
    AlphaBlending,
    PremultipliedAlphaBlending,
}

/// Rasterization: how primitives are assembled, culled and filled.
#[derive(Clone, Copy, Debug, PartialEq, Eq, Structural)]
pub struct PrimitiveState {
    pub topology: PrimitiveTopology,
    pub strip_index_format: Option<IndexFormat>,
    pub front_face: FrontFace,
    pub cull_mode: Option<Face>,
    pub polygon_mode: PolygonMode,
    pub unclipped_depth: bool,
    pub conservative: bool,
}

impl PrimitiveState {
    /// Filled triangles from a triangle list, counter-clockwise ones facing
    /// the viewer, back faces culled.
    pub open spec fn solid_triangles_spec() -> PrimitiveState {
        PrimitiveState {
            topology: PrimitiveTopology::TriangleList,
            strip_index_format: None,
            front_face: FrontFace::Ccw,
            cull_mode: Some(Face::Back),
            polygon_mode: PolygonMode::Fill,
            unclipped_depth: false,
            conservative: false,
        }
    }

    #[verifier::when_used_as_spec(solid_triangles_spec)]
    pub fn solid_triangles() -> (state: PrimitiveState)
        ensures
            state == PrimitiveState::solid_triangles_spec(),
    {
        PrimitiveState {
            topology: PrimitiveTopology::TriangleList,
            strip_index_format: None,
            front_face: FrontFace::Ccw,
            cull_mode: Some(Face::Back),
            polygon_mode: PolygonMode::Fill,
            unclipped_depth: false,
            conservative: false,
        }
    }
}

/// The depth test of a pipeline. Stencil test and depth bias are either on,
/// with settings of the caller's, or off.
#[derive(Clone, Copy, Debug, PartialEq, Eq, Structural)]
pub struct DepthStencilState {
    pub format: DepthFormat,
    pub depth_write_enabled: bool,
    pub depth_compare: CompareFunction,
    pub stencil_enabled: bool,
    pub bias_enabled: bool,
}

impl DepthStencilState {
    /// A depth test against the depth buffer's format that passes nearer
    /// fragments and writes their depth; no stencil test, no bias.
    pub open spec fn nearer_wins_spec() -> DepthStencilState {
        DepthStencilState {
            format: Texture::DEPTH_FORMAT,
            depth_write_enabled: true,
            depth_compare: CompareFunction::Less,
            stencil_enabled: false,
            bias_enabled: false,
        }
    }

    #[verifier::when_used_as_spec(nearer_wins_spec)]
    pub fn nearer_wins() -> (state: DepthStencilState)
        ensures
            state == DepthStencilState::nearer_wins_spec(),
    {
        DepthStencilState {
            format: Texture::DEPTH_FORMAT,
            depth_write_enabled: true,
            depth_compare: CompareFunction::Less,
            stencil_enabled: false,
            bias_enabled: false,
        }
    }
}

/// Multisampling of a pipeline.
#[derive(Clone, Copy, Debug, PartialEq, Eq, Structural)]
pub struct MultisampleState {
    pub count: u32,
    pub mask: u64,
    pub alpha_to_coverage_enabled: bool,
}

impl MultisampleState {
    /// One sample per pixel, every sample enabled.
    pub open spec fn single_sample_spec() -> MultisampleState {
        MultisampleState { count: 1, mask: u64::MAX, alpha_to_coverage_enabled: false }
    }

    #[verifier::when_used_as_spec(single_sample_spec)]
    pub fn single_sample() -> (state: MultisampleState)
        ensures
            state == MultisampleState::single_sample_spec(),
    {
        MultisampleState { count: 1, mask: u64::MAX, alpha_to_coverage_enabled: false }
    }
}

/// The colour channels a pipeline writes, as a bit set.
#[derive(Clone, Copy, Debug, PartialEq, Eq, Structural)]
pub struct ColorWrites {
    pub bits: u32,
}

impl ColorWrites {
    pub const RED: u32 = 1;
    pub const GREEN: u32 = 2;
    pub const BLUE: u32 = 4;
    pub const ALPHA: u32 = 8;
    pub const ALL: u32 = 15;
}

/// The colour target of a pipeline's fragment stage.
#[derive(Clone, Copy, Debug)]
pub struct ColorTargetState {
    pub format: SurfaceFormat,
    pub blend: Option<BlendState>,
    pub write_mask: ColorWrites,
}

impl ColorTargetState {
    /// A target in `format` that every fragment overwrites in all four
    /// channels.
    pub open spec fn overwrite(format: SurfaceFormat) -> ColorTargetState {
        ColorTargetState {
            format,
            blend: Some(BlendState::Replace),
            write_mask: ColorWrites { bits: ColorWrites::ALL },
        }
    }
}

/// The layout of a pipeline: the bind group layouts it is used with, which
/// stay the caller's, and no push constants.
#[derive(Debug)]
pub struct PipelineLayout {
    pub label: String,
    /// How many bind group layouts the caller supplies, in order.
    pub bind_group_layouts: usize,
    pub push_constant_ranges: usize,
}

/// A render pipeline: its shader, its layout and its fixed state.
#[derive(Debug)]
pub struct RenderPipeline {
    label: String,
    layout: PipelineLayout,
    shader: Shader,
    buffers: Vec<VertexBufferLayout>,
    target: ColorTargetState,
    primitive: PrimitiveState,
    depth_stencil: DepthStencilState,
    multisample: MultisampleState,
    multiview: Option<u32>,
}

/// The mathematical content of a [`RenderPipeline`].
pub struct PipelineView {
    pub label: Seq<char>,
    pub layout_label: Seq<char>,
    pub bind_group_layouts: nat,
    pub push_constant_ranges: nat,
    pub shader: Shader,
    pub buffers: Seq<VertexBufferLayout>,
    pub target: ColorTargetState,
    pub primitive: PrimitiveState,
    pub depth_stencil: DepthStencilState,
    pub multisample: MultisampleState,
    pub multiview: Option<u32>,
}

impl View for RenderPipeline {
    type V = PipelineView;

    closed spec fn view(&self) -> PipelineView {
        PipelineView {
            label: self.label@,
            layout_label: self.layout.label@,
            bind_group_layouts: self.layout.bind_group_layouts as nat,
            push_constant_ranges: self.layout.push_constant_ranges as nat,
            shader: self.shader,
            buffers: self.buffers@,
            target: self.target,
            primitive: self.primitive,
            depth_stencil: self.depth_stencil,
            multisample: self.multisample,
            multiview: self.multiview,
        }
    }
}

impl PipelineView {
    /// The state that every pipeline has, around what is particular to one:
    /// its shader, its vertex buffers, the number of its bind group layouts
    /// and the format of the surface it draws to.
    pub open spec fn standard(
        shader: Shader,
        buffers: Seq<VertexBufferLayout>,
        bind_group_layouts: nat,
        format: SurfaceFormat,
    ) -> PipelineView {
        PipelineView {
            label: "render pipeline"@,
            layout_label: "render pipeline layout"@,
            bind_group_layouts,
            push_constant_ranges: 0,
            shader,
            buffers,
            target: ColorTargetState::overwrite(format),
            primitive: PrimitiveState::solid_triangles(),
            depth_stencil: DepthStencilState::nearer_wins(),
            multisample: MultisampleState::single_sample(),
            multiview: None,
        }
    }
}

impl RenderPipeline {
    /// Describes the pipeline that draws `buffers` with `shader` to the
    /// surface of `ctx`, using `bindgroup_layouts` bind group layouts of the
    /// caller's. Text given as shader is compiled under a label derived
    /// from `label`.
    pub fn new(
        ctx: &WgpuContext,
        shader: ShaderSource,
        buffers: Vec<VertexBufferLayout>,
        bindgroup_layouts: usize,
        label: Option<&str>,
    ) -> (pipeline: RenderPipeline)
        ensures
            pipeline@ == PipelineView::standard(
                pipeline@.shader,
                buffers@,
                bindgroup_layouts as nat,
                ctx@.config.format,
            ),
            match shader {
                ShaderSource::SourceCode(text) => {
                    &&& pipeline@.shader.source matches Some(kept) && kept@ == text@
                    &&& label is None <==> pipeline@.shader.label is None
                    &&& label matches Some(given) ==> pipeline@.shader.label matches Some(made)
                        && made@ == shader_label_spec(given@)
                },
                ShaderSource::Module => pipeline@.shader.source is None && pipeline@.shader.label
                    is None,
                ShaderSource::Struct(given) => pipeline@.shader == given,
            },
    {
        let shader = resolve_shader(shader, label);
        let layout = PipelineLayout {
            label: "render pipeline layout".to_owned(),
            bind_group_layouts: bindgroup_layouts,
            push_constant_ranges: 0,
        };
        let target = ColorTargetState {
            format: ctx.surface_config().format,
            blend: Some(BlendState::Replace),
            write_mask: ColorWrites { bits: ColorWrites::ALL },
        };
        RenderPipeline {
            label: "render pipeline".to_owned(),
            layout,
            shader,
            buffers,
            target,
            primitive: PrimitiveState::solid_triangles(),
            depth_stencil: DepthStencilState::nearer_wins(),
            multisample: MultisampleState::single_sample(),
            multiview: None,
        }
    }

    pub fn label(&self) -> (label: &str)
        ensures
            label@ == self@.label,
    {
        self.label.as_str()
    }

    pub fn layout(&self) -> (layout: &PipelineLayout)
        ensures
            layout.label@ == self@.layout_label,
            layout.bind_group_layouts == self@.bind_group_layouts,
            layout.push_constant_ranges == self@.push_constant_ranges,
    {
        &self.layout
    }

    pub fn shader(&self) -> (shader: &Shader)
        ensures
            *shader == self@.shader,
    {
        &self.shader
    }

    pub fn buffers(&self) -> (buffers: &Vec<VertexBufferLayout>)
        ensures
            buffers@ == self@.buffers,
    {
        &self.buffers
    }

    pub fn target(&self) -> (target: ColorTargetState)
        ensures
            target == self@.target,
    {
        self.target
    }

    pub fn primitive(&self) -> (primitive: PrimitiveState)
        ensures
            primitive == self@.primitive,
    {
        self.primitive
    }

    pub fn depth_stencil(&self) -> (state: DepthStencilState)
        ensures
            state == self@.depth_stencil,
    {
        self.depth_stencil
    }

    pub fn multisample(&self) -> (state: MultisampleState)
        ensures
            state == self@.multisample,
    {
        self.multisample
    }

    pub fn multiview(&self) -> (views: Option<u32>)
        ensures
            views == self@.multiview,
    {
        self.multiview
    }
}

/// Every pipeline tests depth in the format of the depth buffer that the
/// context keeps for its surface.
pub proof fn lemma_pipeline_depth_matches_depth_buffer(
    shader: Shader,
    buffers: Seq<VertexBufferLayout>,
    bind_group_layouts: nat,
    ctx: crate::context::ContextView,
)
    requires
        ctx.wf(),
    ensures
        PipelineView::standard(
            shader,
            buffers,
            bind_group_layouts,
            ctx.config.format,
        ).depth_stencil.format == ctx.depth_buffer.format,
{
}

} // verus!
