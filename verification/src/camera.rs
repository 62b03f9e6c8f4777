//! The camera model: a pinhole camera described by its focal length and
//! the size of its aperture.

use vstd::prelude::*;
use vstd::std_specs::ops::{DivSpec, MulSpec, NegSpec};
use std::ops::Neg;
use crate::fixed::Fixed;
use crate::transform::{
    chain_error,
    orthographic_matrix,
    orthographic_spec,
    perspective_projection_matrix,
    perspective_projection_spec,
    two,
    volume_error,
    world_to_raster_matrix,
    world_to_raster_spec,
    ConfigurationError,
};
use crate::vector::matrix44::Matrix4x4;
use crate::vector::vec3d::Vec3d;

verus! {

/// The parameters of a camera.
#[derive(Copy, Clone, Debug, PartialEq, Eq, Structural, Hash)]
pub struct CameraSpec {
    pub focal_length: Fixed,
    pub aperture_width: Fixed,
    pub aperture_height: Fixed,
}

impl CameraSpec {
    pub fn new(focal_length: Fixed, aperture_width: Fixed, aperture_height: Fixed) -> (spec: CameraSpec)
        ensures
            spec == (CameraSpec { focal_length, aperture_width, aperture_height }),
    {
        CameraSpec { focal_length, aperture_width, aperture_height }
    }

    /// Whether the focal length and both apertures are greater than zero.
    pub open spec fn valid(self) -> bool {
        self.focal_length.raw > 0 && self.aperture_width.raw > 0 && self.aperture_height.raw > 0
    }

    /// The ratio of the right side of the view volume to the distance of
    /// the near plane: half the aperture width over the focal length.
    pub open spec fn right_over_near(self) -> Fixed {
        self.aperture_width.div_spec(two().mul_spec(self.focal_length))
    }

    /// The ratio of the top side of the view volume to the distance of the
    /// near plane: half the aperture height over the focal length.
    pub open spec fn top_over_near(self) -> Fixed {
        self.aperture_height.div_spec(two().mul_spec(self.focal_length))
    }

    /// The left side of the view volume on the plane at `near`.
    pub open spec fn left(self, near: Fixed) -> Fixed {
        near.mul_spec(self.right_over_near().neg_spec())
    }

    /// The right side of the view volume on the plane at `near`.
    pub open spec fn right(self, near: Fixed) -> Fixed {
        near.mul_spec(self.right_over_near())
    }

    /// The top side of the view volume on the plane at `near`.
    pub open spec fn top(self, near: Fixed) -> Fixed {
        near.mul_spec(self.top_over_near())
    }

    /// The bottom side of the view volume on the plane at `near`.
    pub open spec fn bottom(self, near: Fixed) -> Fixed {
        near.mul_spec(self.top_over_near().neg_spec())
    }

    /// What is wrong with the view volume between the planes at `near` and
    /// `far`, if anything.
    pub open spec fn volume_error(self, near: Fixed, far: Fixed) -> Option<ConfigurationError> {
        volume_error(self.left(near), self.right(near), self.top(near), self.bottom(near), near, far)
    }
}

/// A camera whose parameters were found valid, with the ratios of the sides
/// of its view volume to the distance of the near plane.
#[derive(Copy, Clone, Debug)]
pub struct CameraModel {
    spec: CameraSpec,
    l_over_n: Fixed,
    r_over_n: Fixed,
    t_over_n: Fixed,
    b_over_n: Fixed,
}

impl CameraModel {
    #[verifier::type_invariant]
    spec fn well_formed(&self) -> bool {
        &&& self.spec.valid()
        &&& self.r_over_n == self.spec.right_over_near()
        &&& self.l_over_n == self.spec.right_over_near().neg_spec()
        &&& self.t_over_n == self.spec.top_over_near()
        &&& self.b_over_n == self.spec.top_over_near().neg_spec()
    }

    /// The parameters of the camera.
    pub closed spec fn parameters(&self) -> CameraSpec {
        self.spec
    }

    /// The camera with the given parameters. It fails when the focal length
    /// or an aperture is not greater than zero.
    pub fn new(spec: CameraSpec) -> (r: Result<CameraModel, ConfigurationError>)
        ensures
            r.is_ok() <==> spec.valid(),
            r matches Ok(camera) ==> camera.parameters() == spec,
            r matches Err(e) ==> e == ConfigurationError::NonPositive,
    {
        if !(spec.focal_length.is_positive() && spec.aperture_width.is_positive()
            && spec.aperture_height.is_positive()) {
            return Err(ConfigurationError::NonPositive);
        }
        let _2 = Fixed::from_int(2);

        let r_over_n = spec.aperture_width / (_2 * spec.focal_length);
        let l_over_n = r_over_n.neg();
        let t_over_n = spec.aperture_height / (_2 * spec.focal_length);
        let b_over_n = t_over_n.neg();

        Ok(CameraModel { spec, l_over_n, r_over_n, t_over_n, b_over_n })
    }

    /// The left, right, top and bottom side of the camera's view volume on
    /// the plane at `near`, in this order.
    pub fn sides(&self, near: Fixed) -> (s: (Fixed, Fixed, Fixed, Fixed))
        ensures
            s.0 == self.parameters().left(near),
            s.1 == self.parameters().right(near),
            s.2 == self.parameters().top(near),
            s.3 == self.parameters().bottom(near),
    {
        proof {
            use_type_invariant(self);
        }
        (near * self.l_over_n, near * self.r_over_n, near * self.t_over_n, near * self.b_over_n)
    }

    /// The matrix that maps the camera's view volume between the planes at
    /// `near` and `far`, taken as a box, to the canonical view volume. It
    /// fails when the near and the far plane are not in order or the volume
    /// has no width or no height.
    pub fn get_matrix(&self, near: Fixed, far: Fixed) -> (r: Result<Matrix4x4<Fixed>, ConfigurationError>)
        ensures
            r.is_ok() <==> self.parameters().volume_error(near, far) is None,
            r matches Ok(m) ==> m == orthographic_spec(
                self.parameters().left(near),
                self.parameters().right(near),
                self.parameters().top(near),
                self.parameters().bottom(near),
                near,
                far,
            ),
            r matches Err(e) ==> self.parameters().volume_error(near, far) == Some(e),
    {
        let (left, right, top, bottom) = self.sides(near);

        orthographic_matrix(left, right, top, bottom, near, far)
    }

    /// The matrix of the perspective projection of the camera's view
    /// frustum between the planes at `near` and `far` to the canonical view
    /// volume. It fails as [`CameraModel::get_matrix`] does.
    pub fn get_projection(&self, near: Fixed, far: Fixed) -> (r: Result<Matrix4x4<Fixed>, ConfigurationError>)
        ensures
            r.is_ok() <==> self.parameters().volume_error(near, far) is None,
            r matches Ok(m) ==> m == perspective_projection_spec(
                self.parameters().left(near),
                self.parameters().right(near),
                self.parameters().top(near),
                self.parameters().bottom(near),
                near,
                far,
            ),
            r matches Err(e) ==> self.parameters().volume_error(near, far) == Some(e),
    {
        let (left, right, top, bottom) = self.sides(near);

        perspective_projection_matrix(left, right, top, bottom, near, far)
    }

    /// The camera with the given parameters, passed one by one.
    pub fn from_spec(focal_length: Fixed, aperture_width: Fixed, aperture_height: Fixed) -> (r: Result<
        CameraModel,
        ConfigurationError,
    >)
        ensures
            r.is_ok() <==> (CameraSpec { focal_length, aperture_width, aperture_height }).valid(),
            r matches Ok(camera) ==> camera.parameters() == (CameraSpec {
                focal_length,
                aperture_width,
                aperture_height,
            }),
            r matches Err(e) ==> e == ConfigurationError::NonPositive,
    {
        let spec = CameraSpec::new(focal_length, aperture_width, aperture_height);
        CameraModel::new(spec)
    }
}

/// What is wrong with the placement of a camera and its view volume, if
/// anything: the error of the view volume comes first, then that of the
/// camera's basis.
pub open spec fn placement_error(
    gaze: Vec3d<Fixed>,
    up: Vec3d<Fixed>,
    spec: CameraSpec,
    near: Fixed,
    far: Fixed,
) -> Option<ConfigurationError> {
    chain_error(gaze, up, spec.left(near), spec.right(near), spec.top(near), spec.bottom(near), near, far)
}

/// The matrix that turns world coordinates into raster coordinates for a
/// camera at `eye` with the given gaze and up direction: the change to
/// camera coordinates, followed by the perspective projection of the
/// camera's view frustum, followed by the viewport map of an image of
/// `width_px` by `height_px` pixels. It is [`world_to_raster_matrix`] for
/// the sides of the camera's view frustum on the near plane.
pub fn world_to_raster(
    eye: Vec3d<Fixed>,
    gaze: Vec3d<Fixed>,
    up: Vec3d<Fixed>,
    camera: &CameraModel,
    near: Fixed,
    far: Fixed,
    width_px: usize,
    height_px: usize,
) -> (r: Result<Matrix4x4<Fixed>, ConfigurationError>)
    ensures
        r.is_ok() <==> placement_error(gaze, up, camera.parameters(), near, far) is None,
        r matches Err(e) ==> placement_error(gaze, up, camera.parameters(), near, far) == Some(e),
        r matches Ok(m) ==> m == world_to_raster_spec(
            eye,
            gaze,
            up,
            camera.parameters().left(near),
            camera.parameters().right(near),
            camera.parameters().top(near),
            camera.parameters().bottom(near),
            near,
            far,
            width_px as int,
            height_px as int,
        ),
{
    let (left, right, top, bottom) = camera.sides(near);
    world_to_raster_matrix(eye, gaze, up, left, right, top, bottom, near, far, width_px, height_px)
}

} // verus!
