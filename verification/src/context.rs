//! The graphics context: a surface configuration and a depth buffer that
//! follow the window they belong to.

use vstd::prelude::*;
use crate::format::{is_preferred_by_wgpu, preferred_index, select_surface_format, SurfaceFormat};
use crate::size::PhysicalSize;
use crate::usage::TextureUsages;

verus! {

/// How presented frames are paced against the display.
#[derive(Clone, Copy, Debug, PartialEq, Eq, Structural)]
pub enum PresentMode {
    AutoVsync,
    AutoNoVsync,
    Fifo,
    FifoRelaxed,
    Immediate,
    Mailbox,
}

/// How the alpha channel of a surface is composited with what lies behind it.
#[derive(Clone, Copy, Debug, PartialEq, Eq, Structural)]
pub enum CompositeAlphaMode {
    Auto,
    Opaque,
    PreMultiplied,
    PostMultiplied,
    Inherit,
}

/// The depth-only texture formats.
#[derive(Clone, Copy, Debug, PartialEq, Eq, Structural)]
pub enum DepthFormat {
    Depth16Unorm,
    Depth24Plus,
    Depth32Float,
}

/// What a surface supports on the adapter that drives it.
pub struct SurfaceCapabilities {
    pub formats: Vec<SurfaceFormat>,
    pub present_modes: Vec<PresentMode>,
    pub alpha_modes: Vec<CompositeAlphaMode>,
}

/// How a surface hands out the textures that frames are rendered to.
#[derive(Clone, Copy, Debug)]
pub struct SurfaceConfiguration {
    pub usage: TextureUsages,
    pub format: SurfaceFormat,
    pub width: u32,
    pub height: u32,
    pub present_mode: PresentMode,
    pub alpha_mode: CompositeAlphaMode,
}

impl SurfaceConfiguration {
    /// The configuration of a `size` surface that renders to `format`.
    pub open spec fn for_window(format: SurfaceFormat, size: PhysicalSize) -> SurfaceConfiguration {
        SurfaceConfiguration {
            usage: TextureUsages { bits: TextureUsages::RENDER_ATTACHMENT },
            format,
            width: size.width,
            height: size.height,
            present_mode: PresentMode::AutoVsync,
            alpha_mode: CompositeAlphaMode::Auto,
        }
    }

    /// The same configuration at another extent.
    pub open spec fn with_size(self, size: PhysicalSize) -> SurfaceConfiguration {
        SurfaceConfiguration { width: size.width, height: size.height, ..self }
    }

    /// The extent of the textures that the surface hands out.
    pub open spec fn size(self) -> PhysicalSize {
        PhysicalSize { width: self.width, height: self.height }
    }

    /// Builds the configuration of a surface of the window's size: a render
    /// attachment in `format`, paced by vertical sync where the display
    /// offers it, composited as the platform chooses.
    pub fn new(format: SurfaceFormat, size: PhysicalSize) -> (config: SurfaceConfiguration)
        ensures
            config == SurfaceConfiguration::for_window(format, size),
    {
        SurfaceConfiguration {
            usage: TextureUsages::render_attachment(),
            format,
            width: size.width,
            height: size.height,
            present_mode: PresentMode::AutoVsync,
            alpha_mode: CompositeAlphaMode::Auto,
        }
    }
}

/// A depth texture, described by what it is created from.
#[derive(Clone, Copy, Debug, PartialEq, Eq, Structural)]
pub struct Texture {
    pub width: u32,
    pub height: u32,
    pub format: DepthFormat,
}

impl Texture {
    /// The one format of every depth buffer and of every pipeline's depth test.
    pub const DEPTH_FORMAT: DepthFormat = DepthFormat::Depth32Float;

    /// The depth texture that covers a surface configured as `config`.
    pub open spec fn depth_texture_for(config: SurfaceConfiguration) -> Texture {
        Texture { width: config.width, height: config.height, format: Texture::DEPTH_FORMAT }
    }

    /// The debug label of the depth buffer of a context.
    pub fn depth_buffer_label() -> (label: &'static str)
        ensures
            label@ == "main depth buffer"@,
    {
        "main depth buffer"
    }

    /// Describes the depth texture that matches `config` pixel for pixel.
    pub fn create_depth_texture(config: &SurfaceConfiguration) -> (texture: Texture)
        ensures
            texture == Texture::depth_texture_for(*config),
    {
        Texture { width: config.width, height: config.height, format: Texture::DEPTH_FORMAT }
    }
}

/// The mathematical content of a [`WgpuContext`].
pub struct ContextView {
    pub formats: Seq<SurfaceFormat>,
    pub present_modes: Seq<PresentMode>,
    pub alpha_modes: Seq<CompositeAlphaMode>,
    pub config: SurfaceConfiguration,
    pub window_size: PhysicalSize,
    pub depth_buffer: Texture,
}

impl ContextView {
    /// The context as first created for a window of `size` on a surface that
    /// supports `capabilities`.
    pub open spec fn initial(capabilities: SurfaceCapabilities, size: PhysicalSize) -> ContextView {
        let formats = capabilities.formats@;
        let config = SurfaceConfiguration::for_window(formats[preferred_index(formats)], size);
        ContextView {
            formats,
            present_modes: capabilities.present_modes@,
            alpha_modes: capabilities.alpha_modes@,
            config,
            window_size: size,
            depth_buffer: Texture::depth_texture_for(config),
        }
    }

    /// The context after a resize request: a request without area changes
    /// nothing, any other moves configuration, depth buffer and recorded
    /// window size to the new extent together.
    pub open spec fn resized(self, new_size: PhysicalSize) -> ContextView {
        if new_size.has_area() {
            let config = self.config.with_size(new_size);
            ContextView {
                config,
                window_size: new_size,
                depth_buffer: Texture::depth_texture_for(config),
                ..self
            }
        } else {
            self
        }
    }

    /// The context after the resize requests `requests`, taken in order.
    pub open spec fn resized_all(self, requests: Seq<PhysicalSize>) -> ContextView
        decreases requests.len(),
    {
        if requests.len() == 0 {
            self
        } else {
            self.resized_all(requests.drop_last()).resized(requests.last())
        }
    }

    /// Configuration, depth buffer and recorded window size agree, and the
    /// configuration is the one the selection policy gives: its format is
    /// the first that wgpu calls sRGB-encoded, or the first of all.
    pub open spec fn wf(self) -> bool {
        &&& self.formats.len() > 0
        &&& is_preferred_by_wgpu(self.formats, preferred_index(self.formats))
        &&& self.config == SurfaceConfiguration::for_window(
            self.formats[preferred_index(self.formats)],
            self.window_size,
        )
        &&& self.depth_buffer == Texture::depth_texture_for(self.config)
    }
}

/// What follows the window: the surface configuration, the depth buffer
/// and the window size they were made for.
#[derive(Clone, Copy, Debug)]
struct SurfaceState {
    config: SurfaceConfiguration,
    window_size: PhysicalSize,
    depth_buffer: Texture,
}

/// Owner of the surface configuration and of the depth buffer. Nothing else
/// changes either of them, and at no time do they disagree.
pub struct WgpuContext {
    surface_capabilities: SurfaceCapabilities,
    surface: SurfaceState,
}

impl View for WgpuContext {
    type V = ContextView;

    closed spec fn view(&self) -> ContextView {
        ContextView {
            formats: self.surface_capabilities.formats@,
            present_modes: self.surface_capabilities.present_modes@,
            alpha_modes: self.surface_capabilities.alpha_modes@,
            config: self.surface.config,
            window_size: self.surface.window_size,
            depth_buffer: self.surface.depth_buffer,
        }
    }
}

impl WgpuContext {
    /// Holds of every context at all times.
    #[verifier::type_invariant]
    pub open spec fn inv(&self) -> bool {
        self@.wf()
    }

    pub closed spec fn capabilities(&self) -> SurfaceCapabilities {
        self.surface_capabilities
    }

    /// Sets up the context for a window of `window_size` whose surface
    /// supports `capabilities`: selects the format, configures the surface at
    /// the window's size and sizes the depth buffer to match.
    pub fn new(window_size: PhysicalSize, capabilities: SurfaceCapabilities) -> (ctx: WgpuContext)
        requires
            capabilities.formats@.len() > 0,
        ensures
            ctx@ == ContextView::initial(capabilities, window_size),
            ctx@.wf(),
            ctx.capabilities() == capabilities,
    {
        let format = match select_surface_format(&capabilities.formats) {
            Some(format) => format,
            None => capabilities.formats[0],
        };
        let config = SurfaceConfiguration::new(format, window_size);
        let depth_buffer = Texture::create_depth_texture(&config);
        WgpuContext {
            surface_capabilities: capabilities,
            surface: SurfaceState { config, window_size, depth_buffer },
        }
    }

    pub fn surface_config(&self) -> (config: &SurfaceConfiguration)
        ensures
            *config == self@.config,
            self@.wf(),
    {
        proof {
            use_type_invariant(self);
        }
        &self.surface.config
    }

    pub fn surface_capabilities(&self) -> (capabilities: &SurfaceCapabilities)
        ensures
            *capabilities == self.capabilities(),
            capabilities.formats@ == self@.formats,
            capabilities.present_modes@ == self@.present_modes,
            capabilities.alpha_modes@ == self@.alpha_modes,
            self@.wf(),
    {
        proof {
            use_type_invariant(self);
        }
        &self.surface_capabilities
    }

    pub fn depth_buffer(&self) -> (texture: &Texture)
        ensures
            *texture == self@.depth_buffer,
            self@.wf(),
    {
        proof {
            use_type_invariant(self);
        }
        &self.surface.depth_buffer
    }

    /// The extent of the last resize request that had area, or of the window
    /// at creation where there was none.
    pub fn surface_size(&self) -> (size: PhysicalSize)
        ensures
            size == self@.window_size,
            self@.wf(),
    {
        proof {
            use_type_invariant(self);
        }
        self.surface.window_size
    }

    /// Follows the window to `new_size`. A size without area is ignored.
    /// Otherwise configuration and depth buffer take the new extent
    /// together, and the caller is told to apply both to the device.
    pub fn resize(&mut self, new_size: PhysicalSize) -> (reconfigure: bool)
        ensures
            final(self)@ == old(self)@.resized(new_size),
            final(self)@.wf(),
            final(self).capabilities() == old(self).capabilities(),
            reconfigure == new_size.has_area(),
    {
        proof {
            use_type_invariant(&*self);
        }
        if new_size.width > 0 && new_size.height > 0 {
            let mut config = self.surface.config;
            config.width = new_size.width;
            config.height = new_size.height;
            let depth_buffer = Texture::create_depth_texture(&config);
            self.surface = SurfaceState { config, window_size: new_size, depth_buffer };
            true
        } else {
            false
        }
    }
}

/// A resize to an extent with area is read back exactly: the configuration
/// and the depth buffer both have the requested width and height.
pub proof fn lemma_resize_takes_effect(ctx: ContextView, new_size: PhysicalSize)
    requires
        new_size.has_area(),
    ensures
        ctx.resized(new_size).config.width == new_size.width,
        ctx.resized(new_size).config.height == new_size.height,
        ctx.resized(new_size).depth_buffer.width == new_size.width,
        ctx.resized(new_size).depth_buffer.height == new_size.height,
        ctx.resized(new_size).window_size == new_size,
{
}

/// A resize to an extent with a zero dimension changes nothing, whatever the
/// context held before.
pub proof fn lemma_resize_without_area_is_noop(ctx: ContextView, new_size: PhysicalSize)
    requires
        new_size.width == 0 || new_size.height == 0,
    ensures
        ctx.resized(new_size) == ctx,
{
}

/// Resizing twice to one extent leaves what resizing once leaves.
pub proof fn lemma_resize_idempotent(ctx: ContextView, new_size: PhysicalSize)
    ensures
        ctx.resized(new_size).resized(new_size) == ctx.resized(new_size),
{
}

/// Every resize keeps configuration and depth buffer in step: a well-formed
/// context stays well-formed.
pub proof fn lemma_resize_preserves_wf(ctx: ContextView, new_size: PhysicalSize)
    requires
        ctx.wf(),
    ensures
        ctx.resized(new_size).wf(),
        ctx.resized(new_size).depth_buffer.width == ctx.resized(new_size).config.width,
        ctx.resized(new_size).depth_buffer.height == ctx.resized(new_size).config.height,
        ctx.resized(new_size).config.format == ctx.config.format,
{
}

/// The last of `requests` that has area, or `initial` where none has.
pub open spec fn last_with_area(initial: PhysicalSize, requests: Seq<PhysicalSize>) -> PhysicalSize
    decreases requests.len(),
{
    if requests.len() == 0 {
        initial
    } else if requests.last().has_area() {
        requests.last()
    } else {
        last_with_area(initial, requests.drop_last())
    }
}

/// However often and to whatever the window is resized, the surface
/// configuration and the depth buffer have the extent of the last request
/// that had area, and the format chosen at creation.
pub proof fn lemma_context_follows_last_resize(ctx: ContextView, requests: Seq<PhysicalSize>)
    requires
        ctx.wf(),
    ensures
        ctx.resized_all(requests).wf(),
        ctx.resized_all(requests).window_size == last_with_area(ctx.window_size, requests),
        ctx.resized_all(requests).config.size() == last_with_area(ctx.window_size, requests),
        ctx.resized_all(requests).depth_buffer.width == ctx.resized_all(requests).config.width,
        ctx.resized_all(requests).depth_buffer.height == ctx.resized_all(requests).config.height,
        ctx.resized_all(requests).config.format == ctx.config.format,
        ctx.resized_all(requests).formats == ctx.formats,
        ctx.resized_all(requests).present_modes == ctx.present_modes,
        ctx.resized_all(requests).alpha_modes == ctx.alpha_modes,
    decreases requests.len(),
{
    if requests.len() > 0 {
        lemma_context_follows_last_resize(ctx, requests.drop_last());
    }
}

/// A surface that has area never loses it: no resize request, however
/// degenerate, leaves a configuration without area behind.
pub proof fn lemma_area_is_kept(ctx: ContextView, requests: Seq<PhysicalSize>)
    requires
        ctx.config.size().has_area(),
    ensures
        ctx.resized_all(requests).config.size().has_area(),
    decreases requests.len(),
{
    if requests.len() > 0 {
        lemma_area_is_kept(ctx, requests.drop_last());
    }
}

/// Resizing to the extent the context already has changes nothing. This is
/// what recovery from a lost or outdated surface relies on.
pub proof fn lemma_resize_to_current_keeps_state(ctx: ContextView)
    requires
        ctx.wf(),
    ensures
        ctx.resized(ctx.window_size) == ctx,
{
}

} // verus!
