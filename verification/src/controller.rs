//! A first-person camera and the uniform buffer that shows it to shaders.

use vstd::prelude::*;
use crate::binding::UniformBinding;
use crate::buffer::Buffer;
use crate::camera::{
    BundleChange,
    BundleView,
    Camera3D,
    CameraBundle3D,
    CameraOptions3D,
    CameraUniform,
    Matrix4,
    Point3,
    Scalar,
    UniformView,
};
use crate::size::PhysicalSize;
use crate::usage::BufferUsages;

verus! {

/// A write of 32-bit words into a buffer, starting `offset` bytes in.
#[derive(Clone, Copy, Debug)]
pub struct UniformWrite {
    pub offset: u64,
    pub words: [u32; 20],
}

/// A camera one unit in front of the origin, with its uniform.
pub struct FirstPersonController {
    bundle: CameraBundle3D,
}

impl View for FirstPersonController {
    type V = BundleView;

    closed spec fn view(&self) -> BundleView {
        self.bundle@
    }
}

impl FirstPersonController {
    /// Where the camera starts: at `(0, 0, 1)`, yaw and pitch as the default
    /// options have them.
    pub open spec fn start_camera() -> Camera3D {
        Camera3D {
            position: Point3 { x: Scalar::zero(), y: Scalar::zero(), z: Scalar::one() },
            yaw: CameraOptions3D::default_spec().yaw,
            pitch: CameraOptions3D::default_spec().pitch,
        }
    }

    /// The controller before its first update.
    pub open spec fn initial(screen_size: PhysicalSize) -> BundleView {
        BundleView::initial(CameraOptions3D::default_spec(), screen_size).apply(
            BundleChange::SetCamera(FirstPersonController::start_camera()),
        )
    }

    /// What the uniform buffer is used for: bound as a uniform, and written
    /// to by copies from the CPU.
    pub open spec fn buffer_usages() -> BufferUsages {
        BufferUsages { bits: 72 }
    }

    /// A camera with the default lens for a screen of `screen_size`, moved
    /// to its starting place. Its uniform is derived by the first
    /// [`FirstPersonController::update`], which has to come before the
    /// buffer is filled.
    pub fn new(screen_size: PhysicalSize) -> (controller: FirstPersonController)
        ensures
            controller@ == FirstPersonController::initial(screen_size),
    {
        let options = CameraOptions3D::default();
        let mut bundle = CameraBundle3D::new(options, screen_size);
        let camera = Camera3D::new(
            Point3::new(Scalar::zero(), Scalar::zero(), Scalar::one()),
            options.yaw,
            options.pitch,
        );
        bundle.set_camera(camera);
        FirstPersonController { bundle }
    }

    pub fn bundle(&self) -> (bundle: &CameraBundle3D)
        ensures
            bundle@ == self@,
    {
        &self.bundle
    }

    /// The buffer that holds the uniform: exactly as large as the uniform,
    /// usable as a uniform and as the target of copies.
    pub fn buffer(&self) -> (buffer: Buffer)
        ensures
            buffer@.size == UniformView::byte_size(),
            buffer@.usages == FirstPersonController::buffer_usages(),
            buffer@.usages.bits == BufferUsages::UNIFORM | BufferUsages::COPY_DST,
            !buffer@.mapped,
    {
        assert(64u32 | 8u32 == 72u32) by (bit_vector);
        let usages = BufferUsages::from_bits(BufferUsages::UNIFORM).union(
            BufferUsages::from_bits(BufferUsages::COPY_DST),
        );
        Buffer::new(CameraUniform::BYTE_SIZE, usages, false)
    }

    /// The debug label of the uniform buffer.
    pub fn buffer_label() -> (label: &'static str)
        ensures
            label@ == "main camera buffer"@,
    {
        "main camera buffer"
    }

    /// The bind group that exposes the uniform buffer at binding index 0
    /// to the vertex and the fragment stage, and its layout.
    pub fn create_bindgroup_and_layout() -> (binding: UniformBinding)
        ensures
            binding.exposes_buffer("camera bindgroup layout"@, "camera bindgroup"@),
    {
        UniformBinding::new("camera bindgroup layout", "camera bindgroup")
    }

    /// Follows the window to `new_size`.
    pub fn resize(&mut self, new_size: PhysicalSize)
        ensures
            final(self)@ == old(self)@.apply(BundleChange::Resize(new_size)),
    {
        self.bundle.resize(new_size);
    }

    /// Moves or turns the camera. The uniform is left as it was.
    pub fn set_camera(&mut self, camera: Camera3D)
        ensures
            final(self)@ == old(self)@.apply(BundleChange::SetCamera(camera)),
    {
        self.bundle.set_camera(camera);
    }

    /// Brings the uniform up to date and says what to write to the buffer:
    /// the whole uniform, at the start. `view_proj` is the projection
    /// matrix times the view matrix of the camera as it stands.
    pub fn update(&mut self, view_proj: Matrix4) -> (write: UniformWrite)
        ensures
            final(self)@ == old(self)@.apply(BundleChange::Update(view_proj)),
            write.offset == 0,
            write.words@ == final(self)@.uniform.words(),
    {
        self.bundle.update(view_proj);
        UniformWrite { offset: 0, words: self.bundle.uniform().to_words() }
    }

    /// The uniform as of the last update.
    pub fn uniform(&self) -> (uniform: CameraUniform)
        ensures
            uniform@ == self@.uniform,
    {
        self.bundle.uniform()
    }
}

} // verus!
