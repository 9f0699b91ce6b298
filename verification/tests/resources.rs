use renderer::binding::{BindGroupEntry, BindGroupLayoutEntry, BufferBindingType, UniformBinding};
use renderer::buffer::Buffer;
use renderer::context::{
    CompositeAlphaMode, DepthFormat, PresentMode, SurfaceCapabilities, Texture, WgpuContext,
};
use renderer::format::SurfaceFormat;
use renderer::pass::DrawCall;
use renderer::pipeline::{
    BlendState, ColorWrites, CompareFunction, Face, FrontFace, PolygonMode, PrimitiveTopology,
    RenderPipeline,
};
use renderer::shader::{resolve_shader, shader_label, Shader, ShaderSource};
use renderer::size::PhysicalSize;
use renderer::triangle::{Triangle, TriangleVertex};
use renderer::usage::{BufferUsages, ShaderStages};
use renderer::vertex::{
    ComponentType, VertexAttribute, VertexBufferLayout, VertexFormat, VertexStepMode,
};
use renderer::vertex::ComponentType as C;
use wgpu::VertexFormat as W;

fn context() -> WgpuContext {
    WgpuContext::new(
        PhysicalSize::new(800, 600),
        SurfaceCapabilities {
            formats: vec![
                SurfaceFormat::new(wgpu::TextureFormat::Bgra8Unorm),
                SurfaceFormat::new(wgpu::TextureFormat::Bgra8UnormSrgb),
            ],
            present_modes: vec![PresentMode::Fifo],
            alpha_modes: vec![CompositeAlphaMode::Auto],
        },
    )
}

fn supported() -> Vec<(VertexFormat, wgpu::VertexFormat)> {
    vec![
        (VertexFormat::new(2, C::Uint8), W::Uint8x2),
        (VertexFormat::new(4, C::Uint8), W::Uint8x4),
        (VertexFormat::new(2, C::Sint8), W::Sint8x2),
        (VertexFormat::new(4, C::Sint8), W::Sint8x4),
        (VertexFormat::new(2, C::Unorm8), W::Unorm8x2),
        (VertexFormat::new(4, C::Unorm8), W::Unorm8x4),
        (VertexFormat::new(2, C::Snorm8), W::Snorm8x2),
        (VertexFormat::new(4, C::Snorm8), W::Snorm8x4),
        (VertexFormat::new(2, C::Uint16), W::Uint16x2),
        (VertexFormat::new(4, C::Uint16), W::Uint16x4),
        (VertexFormat::new(2, C::Sint16), W::Sint16x2),
        (VertexFormat::new(4, C::Sint16), W::Sint16x4),
        (VertexFormat::new(2, C::Unorm16), W::Unorm16x2),
        (VertexFormat::new(4, C::Unorm16), W::Unorm16x4),
        (VertexFormat::new(2, C::Snorm16), W::Snorm16x2),
        (VertexFormat::new(4, C::Snorm16), W::Snorm16x4),
        (VertexFormat::new(2, C::Float16), W::Float16x2),
        (VertexFormat::new(4, C::Float16), W::Float16x4),
        (VertexFormat::new(1, C::Float32), W::Float32),
        (VertexFormat::new(2, C::Float32), W::Float32x2),
        (VertexFormat::new(3, C::Float32), W::Float32x3),
        (VertexFormat::new(4, C::Float32), W::Float32x4),
        (VertexFormat::new(1, C::Uint32), W::Uint32),
        (VertexFormat::new(2, C::Uint32), W::Uint32x2),
        (VertexFormat::new(3, C::Uint32), W::Uint32x3),
        (VertexFormat::new(4, C::Uint32), W::Uint32x4),
        (VertexFormat::new(1, C::Sint32), W::Sint32),
        (VertexFormat::new(2, C::Sint32), W::Sint32x2),
        (VertexFormat::new(3, C::Sint32), W::Sint32x3),
        (VertexFormat::new(4, C::Sint32), W::Sint32x4),
        (VertexFormat::new(1, C::Float64), W::Float64),
        (VertexFormat::new(2, C::Float64), W::Float64x2),
        (VertexFormat::new(3, C::Float64), W::Float64x3),
        (VertexFormat::new(4, C::Float64), W::Float64x4),
    ]
}

#[test]
fn vertex_format_sizes_are_those_of_wgpu() {
    for (ours, theirs) in supported() {
        assert!(ours.is_supported());
        assert_eq!(ours.size(), theirs.size());
    }
}

#[test]
fn unsupported_vertex_formats() {
    assert!(!VertexFormat::new(0, ComponentType::Float32).is_supported());
    assert!(!VertexFormat::new(5, ComponentType::Float32).is_supported());
    assert!(!VertexFormat::new(1, ComponentType::Uint8).is_supported());
    assert!(!VertexFormat::new(3, ComponentType::Uint8).is_supported());
    assert!(!VertexFormat::new(1, ComponentType::Float16).is_supported());
    assert!(!VertexFormat::new(3, ComponentType::Snorm16).is_supported());
    assert!(!VertexFormat::new(0, ComponentType::Float64).is_supported());
    assert_eq!(VertexFormat::new(255, ComponentType::Float64).size(), 2040);
    assert_eq!(VertexFormat::new(0, ComponentType::Uint8).size(), 0);
}

#[test]
fn component_sizes() {
    assert_eq!(ComponentType::Uint8.byte_size(), 1);
    assert_eq!(ComponentType::Snorm8.byte_size(), 1);
    assert_eq!(ComponentType::Float16.byte_size(), 2);
    assert_eq!(ComponentType::Unorm16.byte_size(), 2);
    assert_eq!(ComponentType::Float32.byte_size(), 4);
    assert_eq!(ComponentType::Sint32.byte_size(), 4);
    assert_eq!(ComponentType::Float64.byte_size(), 8);
}

#[test]
fn triangle_vertex_layout() {
    let layout = TriangleVertex::desc();
    assert_eq!(layout.array_stride, 36);
    assert_eq!(layout.array_stride, std::mem::size_of::<[u32; 9]>() as u64);
    assert!(layout.matches_size(TriangleVertex::BYTE_SIZE));
    assert!(!layout.matches_size(40));
    assert_eq!(layout.step_mode, VertexStepMode::Vertex);
    assert_eq!(
        layout.attributes,
        vec![
            VertexAttribute {
                shader_location: 0,
                format: VertexFormat::new(3, ComponentType::Float32),
                offset: 0,
            },
            VertexAttribute {
                shader_location: 1,
                format: VertexFormat::new(2, ComponentType::Float32),
                offset: 12,
            },
            VertexAttribute {
                shader_location: 2,
                format: VertexFormat::new(4, ComponentType::Float32),
                offset: 20,
            },
        ]
    );
    let sizes = wgpu::VertexFormat::Float32x3.size()
        + wgpu::VertexFormat::Float32x2.size()
        + wgpu::VertexFormat::Float32x4.size();
    assert_eq!(layout.array_stride, sizes);
}

#[test]
fn packed_layout_of_mixed_formats() {
    let formats = vec![
        VertexFormat::new(4, ComponentType::Unorm8),
        VertexFormat::new(3, ComponentType::Float64),
        VertexFormat::new(2, ComponentType::Float16),
        VertexFormat::new(1, ComponentType::Uint32),
    ];
    let layout = VertexBufferLayout::packed(&formats);
    let offsets: Vec<u64> = layout.attributes.iter().map(|a| a.offset).collect();
    let locations: Vec<u32> = layout.attributes.iter().map(|a| a.shader_location).collect();
    assert_eq!(offsets, vec![0, 4, 28, 32]);
    assert_eq!(locations, vec![0, 1, 2, 3]);
    assert_eq!(layout.array_stride, 36);
    assert_eq!(layout.attributes[1].format, formats[1]);
    let empty = VertexBufferLayout::packed(&Vec::new());
    assert_eq!(empty.array_stride, 0);
    assert!(empty.attributes.is_empty());
    assert_eq!(empty.step_mode, VertexStepMode::Vertex);
}

#[test]
fn triangle_vertices() {
    let vertices = Triangle::vertices();
    let floats: Vec<Vec<f32>> = vertices
        .iter()
        .map(|v| v.to_words().iter().map(|w| f32::from_bits(*w)).collect())
        .collect();
    assert_eq!(floats[0], vec![0.0, 0.5, 0.0, 0.0, 0.0, 1.0, 0.0, 0.0, 1.0]);
    assert_eq!(floats[1], vec![-0.5, -0.5, 0.0, 0.0, 0.0, 0.0, 1.0, 0.0, 1.0]);
    assert_eq!(floats[2], vec![0.5, -0.5, 0.0, 0.0, 0.0, 0.0, 0.0, 1.0, 1.0]);
    assert_eq!(vertices[0].to_words().len() as u64 * 4, TriangleVertex::BYTE_SIZE);
}

#[test]
fn triangle_description() {
    let ctx = context();
    let triangle = Triangle::new(&ctx, "// wgsl".to_string());
    let pipeline = triangle.pipeline();
    assert_eq!(pipeline.shader().source.as_deref(), Some("// wgsl"));
    assert_eq!(
        pipeline.shader().label.as_deref(),
        Some("shader for pipeline simple triangle pipeline")
    );
    assert_eq!(pipeline.layout().bind_group_layouts, 1);
    assert_eq!(pipeline.buffers().len(), 1);
    assert_eq!(pipeline.buffers()[0].array_stride, 36);
    assert_eq!(pipeline.target().format.raw(), wgpu::TextureFormat::Bgra8UnormSrgb);
    let buffer = triangle.vertex_buffer();
    assert_eq!(buffer.size(), 108);
    assert_eq!(buffer.usages().bits, wgpu::BufferUsages::VERTEX.bits());
    assert!(!buffer.mapped_at_creation());
    assert_eq!(
        triangle.render(),
        DrawCall {
            vertex_buffer_slot: 0,
            first_vertex: 0,
            end_vertex: 3,
            first_instance: 0,
            end_instance: 1,
        }
    );
}

#[test]
fn pipeline_fixed_state() {
    let ctx = context();
    let buffers = vec![TriangleVertex::desc()];
    let pipeline = RenderPipeline::new(&ctx, ShaderSource::Module, buffers, 2, Some("scene"));
    assert_eq!(pipeline.label(), "render pipeline");
    assert_eq!(pipeline.layout().label, "render pipeline layout");
    assert_eq!(pipeline.layout().bind_group_layouts, 2);
    assert_eq!(pipeline.layout().push_constant_ranges, 0);
    assert!(pipeline.shader().source.is_none());
    assert!(pipeline.shader().label.is_none());
    assert!(!pipeline.shader().needs_compiling());
    assert_eq!(pipeline.shader().vertex_entry(), "vs_main");
    assert_eq!(pipeline.shader().fragment_entry(), "fs_main");

    let target = pipeline.target();
    assert_eq!(target.format.raw(), ctx.surface_config().format.raw());
    assert_eq!(target.blend, Some(BlendState::Replace));
    assert_eq!(target.write_mask.bits, wgpu::ColorWrites::ALL.bits());

    let primitive = pipeline.primitive();
    assert_eq!(primitive.topology, PrimitiveTopology::TriangleList);
    assert_eq!(primitive.strip_index_format, None);
    assert_eq!(primitive.front_face, FrontFace::Ccw);
    assert_eq!(primitive.cull_mode, Some(Face::Back));
    assert_eq!(primitive.polygon_mode, PolygonMode::Fill);
    assert!(!primitive.unclipped_depth);
    assert!(!primitive.conservative);

    let depth = pipeline.depth_stencil();
    assert_eq!(depth.format, DepthFormat::Depth32Float);
    assert_eq!(depth.format, Texture::DEPTH_FORMAT);
    assert_eq!(depth.format, ctx.depth_buffer().format);
    assert!(depth.depth_write_enabled);
    assert_eq!(depth.depth_compare, CompareFunction::Less);
    assert!(!depth.stencil_enabled);
    assert!(!depth.bias_enabled);

    let multisample = pipeline.multisample();
    assert_eq!(multisample.count, 1);
    assert_eq!(multisample.mask, !0);
    assert!(!multisample.alpha_to_coverage_enabled);
    assert_eq!(pipeline.multiview(), None);
    assert_eq!(pipeline.buffers().len(), 1);
}

#[test]
fn pipeline_shader_sources() {
    let ctx = context();
    let compiled = RenderPipeline::new(
        &ctx,
        ShaderSource::SourceCode("fn vs_main() {}".to_string()),
        Vec::new(),
        0,
        Some("sky"),
    );
    assert!(compiled.shader().needs_compiling());
    assert_eq!(compiled.shader().source.as_deref(), Some("fn vs_main() {}"));
    assert_eq!(compiled.shader().label.as_deref(), Some("shader for pipeline sky"));

    let unlabelled = RenderPipeline::new(
        &ctx,
        ShaderSource::SourceCode("x".to_string()),
        Vec::new(),
        0,
        None,
    );
    assert_eq!(unlabelled.shader().source.as_deref(), Some("x"));
    assert_eq!(unlabelled.shader().label, None);

    let given = Shader::new("y", Some("mine"));
    let kept = RenderPipeline::new(&ctx, ShaderSource::Struct(given), Vec::new(), 0, Some("sky"));
    assert_eq!(kept.shader().source.as_deref(), Some("y"));
    assert_eq!(kept.shader().label.as_deref(), Some("mine"));
}

#[test]
fn shader_labels() {
    assert_eq!(shader_label(Some("tri")).as_deref(), Some("shader for pipeline tri"));
    assert_eq!(shader_label(Some("")).as_deref(), Some("shader for pipeline "));
    assert_eq!(shader_label(None), None);
    let wrapped = resolve_shader(ShaderSource::Module, Some("tri"));
    assert!(wrapped.source.is_none() && wrapped.label.is_none());
    let plain = Shader::new("code", None);
    assert_eq!(plain.source.as_deref(), Some("code"));
    assert_eq!(plain.label, None);
    assert!(!Shader::from_module().needs_compiling());
}

#[test]
fn buffer_sizes() {
    let usages = BufferUsages::from_bits(BufferUsages::VERTEX);
    let empty = Buffer::new(256, usages, true);
    assert_eq!(empty.size(), 256);
    assert_eq!(empty.usages(), usages);
    assert!(empty.mapped_at_creation());
    for size in [0u64, 4, 8, 36, 108, u64::MAX] {
        let buffer = Buffer::new_init(size, usages);
        assert_eq!(buffer.size(), size);
        assert_eq!(buffer.usages(), usages);
        assert!(!buffer.mapped_at_creation());
    }
    let other = BufferUsages::from_bits(BufferUsages::UNIFORM);
    assert_eq!(Buffer::new_init(80, other).usages(), other);
}

#[test]
fn buffer_usage_bits_are_those_of_wgpu() {
    assert_eq!(BufferUsages::MAP_READ, wgpu::BufferUsages::MAP_READ.bits());
    assert_eq!(BufferUsages::MAP_WRITE, wgpu::BufferUsages::MAP_WRITE.bits());
    assert_eq!(BufferUsages::COPY_SRC, wgpu::BufferUsages::COPY_SRC.bits());
    assert_eq!(BufferUsages::COPY_DST, wgpu::BufferUsages::COPY_DST.bits());
    assert_eq!(BufferUsages::INDEX, wgpu::BufferUsages::INDEX.bits());
    assert_eq!(BufferUsages::VERTEX, wgpu::BufferUsages::VERTEX.bits());
    assert_eq!(BufferUsages::UNIFORM, wgpu::BufferUsages::UNIFORM.bits());
    assert_eq!(BufferUsages::STORAGE, wgpu::BufferUsages::STORAGE.bits());
    assert_eq!(BufferUsages::INDIRECT, wgpu::BufferUsages::INDIRECT.bits());
    assert_eq!(BufferUsages::QUERY_RESOLVE, wgpu::BufferUsages::QUERY_RESOLVE.bits());
    let both = BufferUsages::from_bits(BufferUsages::UNIFORM)
        .union(BufferUsages::from_bits(BufferUsages::COPY_DST));
    assert_eq!(both.bits, 72);
    assert!(both.contains(BufferUsages::from_bits(BufferUsages::UNIFORM)));
    assert!(both.contains(BufferUsages::from_bits(BufferUsages::COPY_DST)));
    assert!(!both.contains(BufferUsages::from_bits(BufferUsages::VERTEX)));
    assert!(!BufferUsages::from_bits(BufferUsages::UNIFORM).contains(both));
}

#[test]
fn stage_and_write_bits_are_those_of_wgpu() {
    assert_eq!(ShaderStages::NONE, wgpu::ShaderStages::NONE.bits());
    assert_eq!(ShaderStages::VERTEX, wgpu::ShaderStages::VERTEX.bits());
    assert_eq!(ShaderStages::FRAGMENT, wgpu::ShaderStages::FRAGMENT.bits());
    assert_eq!(ShaderStages::COMPUTE, wgpu::ShaderStages::COMPUTE.bits());
    assert_eq!(ShaderStages::VERTEX_FRAGMENT, wgpu::ShaderStages::VERTEX_FRAGMENT.bits());
    assert_eq!(ShaderStages::vertex_fragment().bits, 3);
    assert_eq!(ColorWrites::RED, wgpu::ColorWrites::RED.bits());
    assert_eq!(ColorWrites::GREEN, wgpu::ColorWrites::GREEN.bits());
    assert_eq!(ColorWrites::BLUE, wgpu::ColorWrites::BLUE.bits());
    assert_eq!(ColorWrites::ALPHA, wgpu::ColorWrites::ALPHA.bits());
    assert_eq!(ColorWrites::ALL, wgpu::ColorWrites::ALL.bits());
}

#[test]
fn uniform_binding() {
    let entry = BindGroupLayoutEntry::uniform(0);
    assert_eq!(entry.binding, 0);
    assert_eq!(entry.visibility.bits, 3);
    assert_eq!(entry.ty, BufferBindingType::Uniform);
    assert!(!entry.has_dynamic_offset);
    assert_eq!(entry.min_binding_size, None);
    assert_eq!(entry.count, None);
    assert_eq!(BindGroupLayoutEntry::uniform(4).binding, 4);
    assert_eq!(BindGroupEntry::entire_buffer(2), BindGroupEntry { binding: 2, offset: 0, size: None });
    let binding = UniformBinding::new("layout", "group");
    assert_eq!(binding.layout_label, "layout");
    assert_eq!(binding.group_label, "group");
    assert_eq!(binding.layout_entries, vec![BindGroupLayoutEntry::uniform(0)]);
    assert_eq!(binding.group_entries, vec![BindGroupEntry::entire_buffer(0)]);
}

#[test]
fn debug_labels() {
    assert_eq!(Texture::depth_buffer_label(), "main depth buffer");
    assert_eq!(Triangle::vertex_buffer_label(), "triangle vertex buffer");
    assert_eq!(renderer::controller::FirstPersonController::buffer_label(), "main camera buffer");
    assert_eq!(renderer::uniform::Globals::buffer_label(), "global uniform buffer");
}
