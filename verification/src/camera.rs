//! Camera state and the uniform derived from it.
//!
//! Every camera quantity is a single-precision number. This module carries
//! such numbers as their IEEE 754 bit patterns and never computes with them:
//! the view and projection matrices are worked out by the caller, from the
//! state kept here, and handed to [`CameraBundle3D::update`].

use vstd::prelude::*;
use crate::size::PhysicalSize;

verus! {

/// A single-precision number, kept as its bit pattern.
#[derive(Clone, Copy, Debug, PartialEq, Eq, Structural)]
pub struct Scalar {
    pub bits: u32,
}

impl Scalar {
    /// The bit pattern of `0.0`.
    pub const ZERO_BITS: u32 = 0;
    /// The bit pattern of `1.0`.
    pub const ONE_BITS: u32 = 0x3F80_0000;
    /// The bit pattern of `0.5`.
    pub const HALF_BITS: u32 = 0x3F00_0000;
    /// The bit pattern of `-0.5`.
    pub const MINUS_HALF_BITS: u32 = 0xBF00_0000;
    /// The bit pattern of `60.0`.
    pub const SIXTY_BITS: u32 = 0x4270_0000;
    /// The bit pattern of `1000.0`.
    pub const THOUSAND_BITS: u32 = 0x447A_0000;

    pub open spec fn zero_spec() -> Scalar {
        Scalar { bits: Scalar::ZERO_BITS }
    }

    pub open spec fn one_spec() -> Scalar {
        Scalar { bits: Scalar::ONE_BITS }
    }

    pub fn from_bits(bits: u32) -> (scalar: Scalar)
        ensures
            scalar.bits == bits,
    {
        Scalar { bits }
    }

    #[verifier::when_used_as_spec(zero_spec)]
    pub fn zero() -> (scalar: Scalar)
        ensures
            scalar == Scalar::zero_spec(),
    {
        Scalar { bits: Scalar::ZERO_BITS }
    }

    #[verifier::when_used_as_spec(one_spec)]
    pub fn one() -> (scalar: Scalar)
        ensures
            scalar == Scalar::one_spec(),
    {
        Scalar { bits: Scalar::ONE_BITS }
    }
}

/// An angle in the unit it was given in.
#[derive(Clone, Copy, Debug, PartialEq, Eq, Structural)]
pub enum Angle {
    Deg(Scalar),
    Rad(Scalar),
}

/// A point in space.
#[derive(Clone, Copy, Debug, PartialEq, Eq, Structural)]
pub struct Point3 {
    pub x: Scalar,
    pub y: Scalar,
    pub z: Scalar,
}

impl Point3 {
    /// The point in homogeneous coordinates: its three coordinates and `1.0`.
    pub open spec fn homogeneous(self) -> Vector4 {
        Vector4 { x: self.x, y: self.y, z: self.z, w: Scalar::one() }
    }

    pub fn new(x: Scalar, y: Scalar, z: Scalar) -> (point: Point3)
        ensures
            point == (Point3 { x, y, z }),
    {
        Point3 { x, y, z }
    }

    pub fn to_homogeneous(&self) -> (vector: Vector4)
        ensures
            vector == self.homogeneous(),
    {
        Vector4 { x: self.x, y: self.y, z: self.z, w: Scalar::one() }
    }
}

/// Four numbers: a homogeneous position, or one column of a matrix.
#[derive(Clone, Copy, Debug, PartialEq, Eq, Structural)]
pub struct Vector4 {
    pub x: Scalar,
    pub y: Scalar,
    pub z: Scalar,
    pub w: Scalar,
}

impl Vector4 {
    pub open spec fn splat(value: Scalar) -> Vector4 {
        Vector4 { x: value, y: value, z: value, w: value }
    }
}

/// A 4×4 matrix, held by columns.
#[derive(Clone, Copy, Debug, PartialEq, Eq, Structural)]
pub struct Matrix4 {
    pub x: Vector4,
    pub y: Vector4,
    pub z: Vector4,
    pub w: Vector4,
}

impl Matrix4 {
    /// The matrix with `1.0` on the diagonal and `0.0` elsewhere.
    pub open spec fn identity_spec() -> Matrix4 {
        let o = Scalar::zero();
        let i = Scalar::one();
        Matrix4 {
            x: Vector4 { x: i, y: o, z: o, w: o },
            y: Vector4 { x: o, y: i, z: o, w: o },
            z: Vector4 { x: o, y: o, z: i, w: o },
            w: Vector4 { x: o, y: o, z: o, w: i },
        }
    }

    #[verifier::when_used_as_spec(identity_spec)]
    pub fn identity() -> (matrix: Matrix4)
        ensures
            matrix == Matrix4::identity_spec(),
    {
        let o = Scalar::zero();
        let i = Scalar::one();
        Matrix4 {
            x: Vector4 { x: i, y: o, z: o, w: o },
            y: Vector4 { x: o, y: i, z: o, w: o },
            z: Vector4 { x: o, y: o, z: i, w: o },
            w: Vector4 { x: o, y: o, z: o, w: i },
        }
    }
}

/// A camera given by where it stands and where it looks, as yaw and pitch.
#[derive(Clone, Copy, Debug, PartialEq, Eq, Structural)]
pub struct Camera3D {
    pub position: Point3,
    pub yaw: Angle,
    pub pitch: Angle,
}

impl Camera3D {
    pub fn new(position: Point3, yaw: Angle, pitch: Angle) -> (camera: Camera3D)
        ensures
            camera == (Camera3D { position, yaw, pitch }),
    {
        Camera3D { position, yaw, pitch }
    }

    pub fn position(&self) -> (position: Point3)
        ensures
            position == self.position,
    {
        self.position
    }
}

/// The ratio of a viewport's width to its height, kept as the two
/// extents it was taken from.
#[derive(Clone, Copy, Debug, PartialEq, Eq, Structural)]
pub struct Aspect {
    pub width: u32,
    pub height: u32,
}

/// A perspective projection: aspect ratio, vertical field of view and the
/// two clip planes.
#[derive(Clone, Copy, Debug, PartialEq, Eq, Structural)]
pub struct Projection {
    aspect: Aspect,
    fovy: Angle,
    znear: Scalar,
    zfar: Scalar,
}

/// The mathematical content of a [`Projection`].
pub struct ProjectionView {
    pub aspect: Aspect,
    pub fovy: Angle,
    pub znear: Scalar,
    pub zfar: Scalar,
}

impl View for Projection {
    type V = ProjectionView;

    closed spec fn view(&self) -> ProjectionView {
        ProjectionView { aspect: self.aspect, fovy: self.fovy, znear: self.znear, zfar: self.zfar }
    }
}

impl Projection {
    pub fn new(width: u32, height: u32, fovy: Angle, znear: Scalar, zfar: Scalar) -> (projection:
        Projection)
        ensures
            projection@ == (ProjectionView { aspect: Aspect { width, height }, fovy, znear, zfar }),
    {
        Projection { aspect: Aspect { width, height }, fovy, znear, zfar }
    }

    pub fn set_fovy(&mut self, fovy: Angle)
        ensures
            final(self)@ == (ProjectionView { fovy, ..old(self)@ }),
    {
        self.fovy = fovy;
    }

    pub fn set_znear(&mut self, znear: Scalar)
        ensures
            final(self)@ == (ProjectionView { znear, ..old(self)@ }),
    {
        self.znear = znear;
    }

    pub fn set_zfar(&mut self, zfar: Scalar)
        ensures
            final(self)@ == (ProjectionView { zfar, ..old(self)@ }),
    {
        self.zfar = zfar;
    }

    /// Takes the aspect ratio of a `width` by `height` viewport. Field of
    /// view and clip planes stay as they are.
    pub fn resize(&mut self, width: u32, height: u32)
        ensures
            final(self)@ == (ProjectionView { aspect: Aspect { width, height }, ..old(self)@ }),
    {
        self.aspect = Aspect { width, height };
    }

    pub fn aspect(&self) -> (aspect: Aspect)
        ensures
            aspect == self@.aspect,
    {
        self.aspect
    }

    pub fn fovy(&self) -> (fovy: Angle)
        ensures
            fovy == self@.fovy,
    {
        self.fovy
    }

    pub fn znear(&self) -> (znear: Scalar)
        ensures
            znear == self@.znear,
    {
        self.znear
    }

    pub fn zfar(&self) -> (zfar: Scalar)
        ensures
            zfar == self@.zfar,
    {
        self.zfar
    }
}

/// What shaders see of a camera: its position in homogeneous coordinates,
/// then the combined view-projection matrix.
#[derive(Clone, Copy, Debug, PartialEq, Eq, Structural)]
pub struct CameraUniform {
    view_position: Vector4,
    view_proj: Matrix4,
}

/// The mathematical content of a [`CameraUniform`].
pub struct UniformView {
    pub view_position: Vector4,
    pub view_proj: Matrix4,
}

impl Vector4 {
    /// The four numbers in order, as bit patterns.
    pub open spec fn words(self) -> Seq<u32> {
        seq![self.x.bits, self.y.bits, self.z.bits, self.w.bits]
    }
}

impl Matrix4 {
    /// The sixteen numbers column by column, as bit patterns.
    pub open spec fn words(self) -> Seq<u32> {
        self.x.words() + self.y.words() + self.z.words() + self.w.words()
    }
}

impl UniformView {
    /// The number of bytes the uniform takes in a buffer.
    pub open spec fn byte_size() -> nat {
        80
    }

    /// The words of the uniform in the order shaders read them.
    pub open spec fn words(self) -> Seq<u32> {
        self.view_position.words() + self.view_proj.words()
    }

    /// The uniform is twenty words long, four bytes each, and nothing
    /// stands between the position and the matrix.
    pub proof fn lemma_words_layout(self)
        ensures
            self.words().len() == 20,
            self.words().len() * 4 == UniformView::byte_size(),
            self.words().subrange(0, 4) == self.view_position.words(),
            self.words().subrange(4, 20) == self.view_proj.words(),
    {
        assert(self.words().subrange(0, 4) =~= self.view_position.words());
        assert(self.words().subrange(4, 20) =~= self.view_proj.words());
    }
}

impl View for CameraUniform {
    type V = UniformView;

    closed spec fn view(&self) -> UniformView {
        UniformView { view_position: self.view_position, view_proj: self.view_proj }
    }
}

impl CameraUniform {
    /// The number of bytes the uniform takes in a buffer.
    pub const BYTE_SIZE: u64 = 80;

    /// The uniform of a camera at `position` whose view-projection matrix is
    /// `view_proj`.
    pub open spec fn of(position: Point3, view_proj: Matrix4) -> UniformView {
        UniformView { view_position: position.homogeneous(), view_proj }
    }

    /// The uniform before any update: all-zero position, identity matrix.
    pub open spec fn initial() -> UniformView {
        UniformView {
            view_position: Vector4::splat(Scalar::zero()),
            view_proj: Matrix4::identity(),
        }
    }

    pub fn new() -> (uniform: CameraUniform)
        ensures
            uniform@ == CameraUniform::initial(),
    {
        let o = Scalar::zero();
        CameraUniform {
            view_position: Vector4 { x: o, y: o, z: o, w: o },
            view_proj: Matrix4::identity(),
        }
    }

    /// Takes the position of `camera` and the matrix `view_proj`, which the
    /// caller computed as projection matrix times view matrix.
    pub fn update_view_proj(&mut self, camera: &Camera3D, view_proj: Matrix4)
        ensures
            final(self)@ == CameraUniform::of(camera.position, view_proj),
    {
        self.view_position = camera.position().to_homogeneous();
        self.view_proj = view_proj;
    }

    pub fn view_position(&self) -> (position: Vector4)
        ensures
            position == self@.view_position,
    {
        self.view_position
    }

    /// The uniform as shaders read it: twenty 32-bit words without padding,
    /// the position first, then the matrix column by column.
    pub fn to_words(&self) -> (words: [u32; 20])
        ensures
            words@ == self@.words(),
    {
        let p = self.view_position;
        let m = self.view_proj;
        let words: [u32; 20] = [
            p.x.bits,
            p.y.bits,
            p.z.bits,
            p.w.bits,
            m.x.x.bits,
            m.x.y.bits,
            m.x.z.bits,
            m.x.w.bits,
            m.y.x.bits,
            m.y.y.bits,
            m.y.z.bits,
            m.y.w.bits,
            m.z.x.bits,
            m.z.y.bits,
            m.z.z.bits,
            m.z.w.bits,
            m.w.x.bits,
            m.w.y.bits,
            m.w.z.bits,
            m.w.w.bits,
        ];
        proof {
            assert(words@ =~= self@.words());
        }
        words
    }

    pub fn view_proj(&self) -> (matrix: Matrix4)
        ensures
            matrix == self@.view_proj,
    {
        self.view_proj
    }
}

/// The initial pose and lens of a camera.
#[derive(Clone, Copy, Debug, PartialEq, Eq, Structural)]
pub struct CameraOptions3D {
    pub position: Point3,
    pub fovy: Angle,
    pub znear: Scalar,
    pub zfar: Scalar,
    pub yaw: Angle,
    pub pitch: Angle,
}

impl CameraOptions3D {
    /// At the origin, looking along yaw and pitch zero, with a vertical
    /// field of view of 60 degrees and clip planes at 0 and 1000.
    pub open spec fn default_spec() -> CameraOptions3D {
        CameraOptions3D {
            position: Point3 { x: Scalar::zero(), y: Scalar::zero(), z: Scalar::zero() },
            fovy: Angle::Deg(Scalar { bits: Scalar::SIXTY_BITS }),
            znear: Scalar::zero(),
            zfar: Scalar { bits: Scalar::THOUSAND_BITS },
            yaw: Angle::Rad(Scalar::zero()),
            pitch: Angle::Rad(Scalar::zero()),
        }
    }
}

impl Default for CameraOptions3D {
    fn default() -> (options: CameraOptions3D)
        ensures
            options == CameraOptions3D::default_spec(),
    {
        let o = Scalar::zero();
        CameraOptions3D {
            position: Point3 { x: o, y: o, z: o },
            fovy: Angle::Deg(Scalar { bits: Scalar::SIXTY_BITS }),
            znear: o,
            zfar: Scalar { bits: Scalar::THOUSAND_BITS },
            yaw: Angle::Rad(o),
            pitch: Angle::Rad(o),
        }
    }
}

/// A camera, its projection and the uniform last derived from the two.
///
/// Camera and projection may be changed at any time. The uniform follows
/// only when [`CameraBundle3D::update`] is called: change, update, then read.
pub struct CameraBundle3D {
    camera: Camera3D,
    projection: Projection,
    uniform: CameraUniform,
}

/// The mathematical content of a [`CameraBundle3D`].
pub struct BundleView {
    pub camera: Camera3D,
    pub projection: ProjectionView,
    pub uniform: UniformView,
}

/// One change to a camera bundle.
pub enum BundleChange {
    /// The camera is replaced: position, yaw and pitch.
    SetCamera(Camera3D),
    /// The projection is replaced.
    SetProjection(ProjectionView),
    /// The window took a new size.
    Resize(PhysicalSize),
    /// The uniform is brought up to date, with this view-projection matrix.
    Update(Matrix4),
}

impl BundleView {
    /// The bundle as first made from `options` for a screen of `screen_size`.
    pub open spec fn initial(options: CameraOptions3D, screen_size: PhysicalSize) -> BundleView {
        BundleView {
            camera: Camera3D {
                position: options.position,
                yaw: options.yaw,
                pitch: options.pitch,
            },
            projection: ProjectionView {
                aspect: Aspect { width: screen_size.width, height: screen_size.height },
                fovy: options.fovy,
                znear: options.znear,
                zfar: options.zfar,
            },
            uniform: CameraUniform::initial(),
        }
    }

    /// The bundle after `change`.
    pub open spec fn apply(self, change: BundleChange) -> BundleView {
        match change {
            BundleChange::SetCamera(camera) => BundleView { camera, ..self },
            BundleChange::SetProjection(projection) => BundleView { projection, ..self },
            BundleChange::Resize(size) => BundleView {
                projection: ProjectionView {
                    aspect: Aspect { width: size.width, height: size.height },
                    ..self.projection
                },
                ..self
            },
            BundleChange::Update(view_proj) => BundleView {
                uniform: CameraUniform::of(self.camera.position, view_proj),
                ..self
            },
        }
    }

    /// The bundle after `changes`, taken in order.
    pub open spec fn apply_all(self, changes: Seq<BundleChange>) -> BundleView
        decreases changes.len(),
    {
        if changes.len() == 0 {
            self
        } else {
            self.apply_all(changes.drop_last()).apply(changes.last())
        }
    }
}

impl View for CameraBundle3D {
    type V = BundleView;

    closed spec fn view(&self) -> BundleView {
        BundleView { camera: self.camera, projection: self.projection@, uniform: self.uniform@ }
    }
}

impl CameraBundle3D {
    pub fn new(options: CameraOptions3D, screen_size: PhysicalSize) -> (bundle: CameraBundle3D)
        ensures
            bundle@ == BundleView::initial(options, screen_size),
    {
        let camera = Camera3D::new(options.position, options.yaw, options.pitch);
        let projection = Projection::new(
            screen_size.width,
            screen_size.height,
            options.fovy,
            options.znear,
            options.zfar,
        );
        let uniform = CameraUniform::new();
        CameraBundle3D { camera, projection, uniform }
    }

    pub fn camera(&self) -> (camera: &Camera3D)
        ensures
            *camera == self@.camera,
    {
        &self.camera
    }

    pub fn projection(&self) -> (projection: &Projection)
        ensures
            projection@ == self@.projection,
    {
        &self.projection
    }

    /// Moves or turns the camera. The uniform is left as it was.
    pub fn set_camera(&mut self, camera: Camera3D)
        ensures
            final(self)@ == old(self)@.apply(BundleChange::SetCamera(camera)),
    {
        self.camera = camera;
    }

    /// Replaces the projection. The uniform is left as it was.
    pub fn set_projection(&mut self, projection: Projection)
        ensures
            final(self)@ == old(self)@.apply(BundleChange::SetProjection(projection@)),
    {
        self.projection = projection;
    }

    /// Brings the uniform up to date with the camera. `view_proj` is the
    /// projection matrix times the view matrix, computed by the caller from
    /// the bundle as it stands.
    pub fn update(&mut self, view_proj: Matrix4)
        ensures
            final(self)@ == old(self)@.apply(BundleChange::Update(view_proj)),
    {
        self.uniform.update_view_proj(&self.camera, view_proj);
    }

    /// Follows the window to `new_size`: the projection takes the new aspect
    /// ratio. The uniform is left as it was until the next update.
    pub fn resize(&mut self, new_size: PhysicalSize)
        ensures
            final(self)@ == old(self)@.apply(BundleChange::Resize(new_size)),
    {
        self.projection.resize(new_size.width, new_size.height);
    }

    /// The uniform as of the last update.
    pub fn uniform(&self) -> (uniform: CameraUniform)
        ensures
            uniform@ == self@.uniform,
    {
        self.uniform
    }
}

/// Only an update changes the uniform: after any run of changes that holds
/// no update, a read gives what it gave before them.
pub proof fn lemma_uniform_is_stale_until_update(bundle: BundleView, changes: Seq<BundleChange>)
    requires
        forall|i: int| 0 <= i < changes.len() ==> !(#[trigger] changes[i] is Update),
    ensures
        bundle.apply_all(changes).uniform == bundle.uniform,
    decreases changes.len(),
{
    if changes.len() > 0 {
        let earlier = changes.drop_last();
        assert forall|i: int| 0 <= i < earlier.len() implies !(#[trigger] earlier[i] is Update) by {
            assert(earlier[i] == changes[i]);
        }
        lemma_uniform_is_stale_until_update(bundle, earlier);
        assert(!(changes[changes.len() - 1] is Update));
    }
}

/// An update makes the uniform reflect the camera's position at that moment
/// and the matrix it was given, whatever the uniform held before.
pub proof fn lemma_update_refreshes_uniform(bundle: BundleView, view_proj: Matrix4)
    ensures
        bundle.apply(BundleChange::Update(view_proj)).uniform.view_position
            == bundle.camera.position.homogeneous(),
        bundle.apply(BundleChange::Update(view_proj)).uniform.view_proj == view_proj,
        bundle.apply(BundleChange::Update(view_proj)).camera == bundle.camera,
        bundle.apply(BundleChange::Update(view_proj)).projection == bundle.projection,
{
}

/// A resize changes the aspect ratio and nothing else.
pub proof fn lemma_resize_changes_only_aspect(bundle: BundleView, size: PhysicalSize)
    ensures
        bundle.apply(BundleChange::Resize(size)).projection.aspect == (Aspect {
            width: size.width,
            height: size.height,
        }),
        bundle.apply(BundleChange::Resize(size)).projection.fovy == bundle.projection.fovy,
        bundle.apply(BundleChange::Resize(size)).projection.znear == bundle.projection.znear,
        bundle.apply(BundleChange::Resize(size)).projection.zfar == bundle.projection.zfar,
        bundle.apply(BundleChange::Resize(size)).camera == bundle.camera,
        bundle.apply(BundleChange::Resize(size)).uniform == bundle.uniform,
{
}

} // verus!
