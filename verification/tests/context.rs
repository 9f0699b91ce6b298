use renderer::context::{
    CompositeAlphaMode, DepthFormat, PresentMode, SurfaceCapabilities, Texture, WgpuContext,
};
use renderer::format::{select_surface_format, SurfaceFormat};
use renderer::size::PhysicalSize;
use renderer::usage::TextureUsages;

fn formats(raw: &[wgpu::TextureFormat]) -> Vec<SurfaceFormat> {
    raw.iter().map(|format| SurfaceFormat::new(*format)).collect()
}

fn capabilities(raw: &[wgpu::TextureFormat]) -> SurfaceCapabilities {
    SurfaceCapabilities {
        formats: formats(raw),
        present_modes: vec![PresentMode::Fifo],
        alpha_modes: vec![CompositeAlphaMode::Opaque],
    }
}

fn context(width: u32, height: u32) -> WgpuContext {
    WgpuContext::new(
        PhysicalSize::new(width, height),
        capabilities(&[wgpu::TextureFormat::Bgra8UnormSrgb, wgpu::TextureFormat::Bgra8Unorm]),
    )
}

fn dims(ctx: &WgpuContext) -> (u32, u32, u32, u32, u32, u32) {
    (
        ctx.surface_config().width,
        ctx.surface_config().height,
        ctx.depth_buffer().width,
        ctx.depth_buffer().height,
        ctx.surface_size().width,
        ctx.surface_size().height,
    )
}

#[test]
fn srgb_format_is_preferred() {
    let ctx = context(800, 600);
    assert_eq!(ctx.surface_config().format.raw(), wgpu::TextureFormat::Bgra8UnormSrgb);
    assert!(ctx.surface_config().format.is_srgb());
}

#[test]
fn first_format_is_the_fallback() {
    let ctx = WgpuContext::new(
        PhysicalSize::new(800, 600),
        capabilities(&[wgpu::TextureFormat::Bgra8Unorm]),
    );
    assert_eq!(ctx.surface_config().format.raw(), wgpu::TextureFormat::Bgra8Unorm);
    assert!(!ctx.surface_config().format.is_srgb());
}

#[test]
fn first_srgb_format_wins_wherever_it_stands() {
    let list = formats(&[
        wgpu::TextureFormat::Bgra8Unorm,
        wgpu::TextureFormat::Rgba16Float,
        wgpu::TextureFormat::Rgba8UnormSrgb,
        wgpu::TextureFormat::Bgra8UnormSrgb,
    ]);
    let selected = select_surface_format(&list).unwrap();
    assert_eq!(selected.raw(), wgpu::TextureFormat::Rgba8UnormSrgb);
}

#[test]
fn fallback_is_first_of_several() {
    let list = formats(&[
        wgpu::TextureFormat::Rgba16Float,
        wgpu::TextureFormat::Bgra8Unorm,
        wgpu::TextureFormat::Rgba8Unorm,
    ]);
    let selected = select_surface_format(&list).unwrap();
    assert_eq!(selected.raw(), wgpu::TextureFormat::Rgba16Float);
}

#[test]
fn nothing_is_selected_from_nothing() {
    assert!(select_surface_format(&Vec::new()).is_none());
}

#[test]
fn srgb_flag_comes_from_the_format() {
    assert!(SurfaceFormat::new(wgpu::TextureFormat::Bgra8UnormSrgb).is_srgb());
    assert!(SurfaceFormat::new(wgpu::TextureFormat::Rgba8UnormSrgb).is_srgb());
    assert!(!SurfaceFormat::new(wgpu::TextureFormat::Bgra8Unorm).is_srgb());
    assert!(!SurfaceFormat::new(wgpu::TextureFormat::Rgba16Float).is_srgb());
    assert_eq!(
        SurfaceFormat::new(wgpu::TextureFormat::Rgba8Unorm).raw(),
        wgpu::TextureFormat::Rgba8Unorm
    );
}

#[test]
fn new_context_matches_the_window() {
    let ctx = context(800, 600);
    assert_eq!(dims(&ctx), (800, 600, 800, 600, 800, 600));
    let config = ctx.surface_config();
    assert_eq!(config.usage.bits, TextureUsages::RENDER_ATTACHMENT);
    assert_eq!(config.present_mode, PresentMode::AutoVsync);
    assert_eq!(config.alpha_mode, CompositeAlphaMode::Auto);
    assert_eq!(ctx.depth_buffer().format, DepthFormat::Depth32Float);
    assert_eq!(ctx.depth_buffer().format, Texture::DEPTH_FORMAT);
    assert_eq!(ctx.surface_capabilities().formats.len(), 2);
    assert_eq!(ctx.surface_capabilities().present_modes, vec![PresentMode::Fifo]);
    assert_eq!(ctx.surface_capabilities().alpha_modes, vec![CompositeAlphaMode::Opaque]);
}

#[test]
fn resize_takes_effect() {
    let mut ctx = context(800, 600);
    for (width, height) in [(1, 1), (1024, 768), (640, 480), (3840, 2160), (u32::MAX, 1), (7, u32::MAX)] {
        assert!(ctx.resize(PhysicalSize::new(width, height)));
        assert_eq!(dims(&ctx), (width, height, width, height, width, height));
        assert_eq!(ctx.surface_config().format.raw(), wgpu::TextureFormat::Bgra8UnormSrgb);
        assert_eq!(ctx.depth_buffer().format, DepthFormat::Depth32Float);
    }
}

#[test]
fn resize_without_area_changes_nothing() {
    let mut ctx = context(800, 600);
    for (width, height) in [(0, 0), (0, 600), (800, 0), (0, 1), (1, 0), (0, u32::MAX)] {
        assert!(!ctx.resize(PhysicalSize::new(width, height)));
        assert_eq!(dims(&ctx), (800, 600, 800, 600, 800, 600));
    }
    assert!(ctx.resize(PhysicalSize::new(320, 200)));
    assert!(!ctx.resize(PhysicalSize::new(0, 200)));
    assert_eq!(dims(&ctx), (320, 200, 320, 200, 320, 200));
}

#[test]
fn resize_twice_is_resize_once() {
    let mut once = context(800, 600);
    let mut twice = context(800, 600);
    assert!(once.resize(PhysicalSize::new(1280, 720)));
    assert!(twice.resize(PhysicalSize::new(1280, 720)));
    assert!(twice.resize(PhysicalSize::new(1280, 720)));
    assert_eq!(dims(&once), dims(&twice));
    assert_eq!(once.surface_config().format.raw(), twice.surface_config().format.raw());
    assert_eq!(once.depth_buffer(), twice.depth_buffer());
    assert_eq!(once.surface_config().present_mode, twice.surface_config().present_mode);
}

#[test]
fn context_of_a_minimized_window_keeps_its_size() {
    let mut ctx = context(0, 0);
    assert_eq!(dims(&ctx), (0, 0, 0, 0, 0, 0));
    assert!(!ctx.resize(PhysicalSize::new(0, 0)));
    assert!(ctx.resize(PhysicalSize::new(10, 20)));
    assert_eq!(dims(&ctx), (10, 20, 10, 20, 10, 20));
}

#[test]
fn depth_texture_covers_the_configuration() {
    let ctx = context(123, 456);
    let texture = Texture::create_depth_texture(ctx.surface_config());
    assert_eq!(texture, Texture { width: 123, height: 456, format: DepthFormat::Depth32Float });
}

#[test]
fn degenerate_sizes() {
    assert!(PhysicalSize::new(0, 0).is_degenerate());
    assert!(PhysicalSize::new(0, 9).is_degenerate());
    assert!(PhysicalSize::new(9, 0).is_degenerate());
    assert!(!PhysicalSize::new(1, 1).is_degenerate());
}

#[test]
fn texture_usage_bits_are_those_of_wgpu() {
    assert_eq!(TextureUsages::COPY_SRC, wgpu::TextureUsages::COPY_SRC.bits());
    assert_eq!(TextureUsages::COPY_DST, wgpu::TextureUsages::COPY_DST.bits());
    assert_eq!(TextureUsages::TEXTURE_BINDING, wgpu::TextureUsages::TEXTURE_BINDING.bits());
    assert_eq!(TextureUsages::STORAGE_BINDING, wgpu::TextureUsages::STORAGE_BINDING.bits());
    assert_eq!(TextureUsages::RENDER_ATTACHMENT, wgpu::TextureUsages::RENDER_ATTACHMENT.bits());
    assert_eq!(TextureUsages::render_attachment().bits, 16);
}

#[test]
fn context_follows_the_last_resize_with_area() {
    let mut ctx = context(800, 600);
    let requests = [(0, 0), (1024, 768), (0, 768), (640, 0), (0, 0)];
    for (width, height) in requests {
        ctx.resize(PhysicalSize::new(width, height));
        assert_eq!(ctx.surface_config().width, ctx.depth_buffer().width);
        assert_eq!(ctx.surface_config().height, ctx.depth_buffer().height);
    }
    assert_eq!(dims(&ctx), (1024, 768, 1024, 768, 1024, 768));
    ctx.resize(PhysicalSize::new(5, 6));
    ctx.resize(PhysicalSize::new(7, 0));
    assert_eq!(dims(&ctx), (5, 6, 5, 6, 5, 6));
    assert_eq!(ctx.surface_config().format.raw(), wgpu::TextureFormat::Bgra8UnormSrgb);
}

#[test]
fn resize_to_the_current_size_changes_nothing() {
    let mut ctx = context(800, 600);
    let size = ctx.surface_size();
    assert!(ctx.resize(size));
    assert_eq!(dims(&ctx), (800, 600, 800, 600, 800, 600));
    let mut minimized = context(0, 600);
    let size = minimized.surface_size();
    assert!(!minimized.resize(size));
    assert_eq!(dims(&minimized), (0, 600, 0, 600, 0, 600));
}

#[test]
fn selected_format_is_srgb_exactly_if_one_is_offered() {
    let with = formats(&[wgpu::TextureFormat::Rgba8Unorm, wgpu::TextureFormat::Bc1RgbaUnormSrgb]);
    let without = formats(&[wgpu::TextureFormat::Rgba8Unorm, wgpu::TextureFormat::Rgb10a2Unorm]);
    assert!(select_surface_format(&with).unwrap().is_srgb());
    assert!(!select_surface_format(&without).unwrap().is_srgb());
}
