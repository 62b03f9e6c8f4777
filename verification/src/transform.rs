//! The transform chain from world coordinates to raster coordinates.
//!
//! The camera looks down the negative z axis of its own coordinate system,
//! so the near and the far plane have negative coordinates and the near
//! plane has the greater one: `near > far`. All matrices act on column
//! vectors in homogeneous coordinates. The entries are fixed-point numbers
//! whose arithmetic saturates and rounds down. The basis of the camera is
//! found on exact integers and rounded once, so that it is orthonormal to
//! within a few units of 1/65536 for directions of any length.

use vstd::prelude::*;
use vstd::std_specs::ops::{AddSpec, DivSpec, MulSpec, NegSpec, SubSpec};
use std::ops::Neg;
use crate::fixed::{floor_div, integer_sqrt, isqrt, lemma_product_bound, saturate, Fixed};
use crate::unit::{dot, lemma_unit_across, near_unit, normalisable, sign_kept, square_sum, unit_spec, unit_vector};
use crate::geometry::{Point3, Vector2, Vector3};
use crate::vertex::Vertex;
use crate::vector::matrix44::Matrix4x4;
use crate::vector::vec3d::Vec3d;
use crate::vector::vec4d::Vec4d;

verus! {

/// Why a transform cannot be built.
#[derive(Copy, Clone, Debug, PartialEq, Eq, Structural)]
pub enum ConfigurationError {
    /// The gaze direction is zero, or parallel or nearly parallel to the up
    /// direction, so the camera has no basis.
    DegenerateBasis,
    /// The focal length or an aperture is not greater than zero.
    NonPositive,
    /// The near and the far plane are not both in front of the camera with
    /// the near plane before the far plane.
    NearFar,
    /// The left and the right or the top and the bottom of the view volume
    /// are the same.
    EmptyVolume,
    /// A component of the up direction has a magnitude above 2 to the 29.
    OutOfRange,
}

impl ConfigurationError {
    /// The description of the error.
    pub open spec fn description(self) -> Seq<char> {
        match self {
            ConfigurationError::DegenerateBasis => "the gaze direction is zero or parallel or nearly parallel to the up direction"@,
            ConfigurationError::NonPositive => "the focal length and the apertures must be greater than zero"@,
            ConfigurationError::NearFar => "the near and the far plane must lie in front of the camera, the near plane first"@,
            ConfigurationError::EmptyVolume => "the view volume has no width or no height"@,
            ConfigurationError::OutOfRange => "the up direction is too long"@,
        }
    }

    /// A description of the error.
    pub fn describe(&self) -> (text: &'static str)
        ensures
            text@ == self.description(),
    {
        match self {
            ConfigurationError::DegenerateBasis => "the gaze direction is zero or parallel or nearly parallel to the up direction",
            ConfigurationError::NonPositive => "the focal length and the apertures must be greater than zero",
            ConfigurationError::NearFar => "the near and the far plane must lie in front of the camera, the near plane first",
            ConfigurationError::EmptyVolume => "the view volume has no width or no height",
            ConfigurationError::OutOfRange => "the up direction is too long",
        }
    }
}

/// Zero.
pub open spec fn zero() -> Fixed {
    Fixed { raw: 0 }
}

/// One.
pub open spec fn one() -> Fixed {
    Fixed { raw: 65536 }
}

/// Two.
pub open spec fn two() -> Fixed {
    Fixed { raw: 131072 }
}

/// The cross product of two vectors.
pub open spec fn cross_spec(a: Vec3d<Fixed>, b: Vec3d<Fixed>) -> Vec3d<Fixed> {
    Vec3d {
        x: a.y.mul_spec(b.z).sub_spec(a.z.mul_spec(b.y)),
        y: a.z.mul_spec(b.x).sub_spec(a.x.mul_spec(b.z)),
        z: a.x.mul_spec(b.y).sub_spec(a.y.mul_spec(b.x)),
    }
}

/// The cross product of two vectors.
pub fn cross(a: &Vec3d<Fixed>, b: &Vec3d<Fixed>) -> (c: Vec3d<Fixed>)
    ensures
        c == cross_spec(*a, *b),
{
    Vec3d { x: a.y * b.z - a.z * b.y, y: a.z * b.x - a.x * b.z, z: a.x * b.y - a.y * b.x }
}

/// The length of a vector: the integer square root of the sum of the
/// squares of its raw components, which is exact up to rounding down.
pub open spec fn length_spec(v: Vec3d<Fixed>) -> Fixed {
    Fixed { raw: saturate(isqrt(v.x.raw * v.x.raw + v.y.raw * v.y.raw + v.z.raw * v.z.raw)) }
}

fn square(v: i64) -> (s: u128)
    ensures
        s == v * v,
        s <= 0x4000_0000_0000_0000_0000_0000_0000_0000,
{
    let a: i128 = v as i128;
    assert(0 <= a * a <= 0x4000_0000_0000_0000_0000_0000_0000_0000) by (nonlinear_arith)
        requires
            -0x8000_0000_0000_0000 <= a <= 0x8000_0000_0000_0000,
    ;
    (a * a) as u128
}

/// Whether every component of the vector is zero.
pub open spec fn zero_vector(v: Vec3d<Fixed>) -> bool {
    v.x.raw == 0 && v.y.raw == 0 && v.z.raw == 0
}

/// Whether two vectors are parallel: their cross product, taken exactly on
/// the raw components and without any rounding, is zero. The zero vector is
/// parallel to every vector.
pub open spec fn parallel(a: Vec3d<Fixed>, b: Vec3d<Fixed>) -> bool {
    &&& a.y.raw * b.z.raw == a.z.raw * b.y.raw
    &&& a.z.raw * b.x.raw == a.x.raw * b.z.raw
    &&& a.x.raw * b.y.raw == a.y.raw * b.x.raw
}

fn exact_product(a: i64, b: i64) -> (p: i128)
    ensures
        p == a * b,
{
    assert(-0x4000_0000_0000_0000_0000_0000_0000_0000 <= a * b <= 0x4000_0000_0000_0000_0000_0000_0000_0000)
        by (nonlinear_arith)
        requires
            -0x8000_0000_0000_0000 <= a <= 0x8000_0000_0000_0000,
            -0x8000_0000_0000_0000 <= b <= 0x8000_0000_0000_0000,
    ;
    (a as i128) * (b as i128)
}

/// Whether every component of the vector is zero.
pub fn is_zero_vector(v: &Vec3d<Fixed>) -> (r: bool)
    ensures
        r == zero_vector(*v),
{
    v.x.raw == 0 && v.y.raw == 0 && v.z.raw == 0
}

/// Whether two vectors are parallel.
pub fn is_parallel(a: &Vec3d<Fixed>, b: &Vec3d<Fixed>) -> (r: bool)
    ensures
        r == parallel(*a, *b),
{
    exact_product(a.y.raw, b.z.raw) == exact_product(a.z.raw, b.y.raw) && exact_product(a.z.raw, b.x.raw)
        == exact_product(a.x.raw, b.z.raw) && exact_product(a.x.raw, b.y.raw) == exact_product(a.y.raw, b.x.raw)
}

/// A square is zero only for zero.
pub proof fn lemma_square_zero(x: int)
    ensures
        x * x >= 0,
        x * x == 0 <==> x == 0,
{
    assert(x * x >= 0 && (x * x == 0 <==> x == 0)) by (nonlinear_arith);
}

/// The length of a vector. It is zero for the zero vector only.
pub fn length(v: &Vec3d<Fixed>) -> (l: Fixed)
    ensures
        l == length_spec(*v),
        l.raw >= 0,
        l.raw == 0 <==> zero_vector(*v),
{
    let sum: u128 = square(v.x.raw) + square(v.y.raw) + square(v.z.raw);
    let root: u64 = integer_sqrt(sum);
    proof {
        lemma_square_zero(v.x.raw as int);
        lemma_square_zero(v.y.raw as int);
        lemma_square_zero(v.z.raw as int);
        lemma_square_zero(root as int);
        assert((root + 1) * (root + 1) == 1 <==> root == 0) by (nonlinear_arith)
            requires
                root >= 0,
        ;
    }
    if root > i64::MAX as u64 {
        Fixed { raw: i64::MAX }
    } else {
        Fixed { raw: root as i64 }
    }
}

/// The vector opposite to `v`.
pub open spec fn negated(v: Vec3d<Fixed>) -> Vec3d<Fixed> {
    Vec3d { x: v.x.neg_spec(), y: v.y.neg_spec(), z: v.z.neg_spec() }
}

/// The three axes of a camera, expressed in world coordinates.
#[derive(Copy, Clone, Debug)]
pub struct CameraBasis {
    pub u: Vec3d<Fixed>,
    pub v: Vec3d<Fixed>,
    pub w: Vec3d<Fixed>,
}

/// The greatest raw magnitude of a component of an up direction: that of
/// the number 2 to the 29.
pub const UP_LIMIT: i64 = 0x2000_0000_0000;

/// The greatest raw length that counts as near zero: 1/256.
pub const NEAR_ZERO: i64 = 256;

/// Whether every component of an up direction has a raw magnitude of at
/// most [`UP_LIMIT`].
pub open spec fn up_within_limit(top: Vec3d<Fixed>) -> bool {
    &&& -UP_LIMIT <= top.x.raw <= UP_LIMIT
    &&& -UP_LIMIT <= top.y.raw <= UP_LIMIT
    &&& -UP_LIMIT <= top.z.raw <= UP_LIMIT
}

/// The cross product of two vectors, taken exactly on their raw
/// components: its components are in units of 1/65536 squared.
pub open spec fn exact_cross(a: Vec3d<Fixed>, b: Vec3d<Fixed>) -> (int, int, int) {
    (
        a.y.raw * b.z.raw - a.z.raw * b.y.raw,
        a.z.raw * b.x.raw - a.x.raw * b.z.raw,
        a.x.raw * b.y.raw - a.y.raw * b.x.raw,
    )
}

/// The axis against which the camera looks: the unit vector opposite to
/// the gaze direction.
pub open spec fn backward_axis(gaze: Vec3d<Fixed>) -> Vec3d<Fixed> {
    unit_spec(-gaze.x.raw, -gaze.y.raw, -gaze.z.raw)
}

/// Whether an exact cross product is near zero: its length is at most
/// [`NEAR_ZERO`] raw units, that is 1/256.
pub open spec fn near_zero(c: (int, int, int)) -> bool {
    square_sum(c.0, c.1, c.2) <= 0x1_0000_0000_0000
}

/// Whether a gaze and an up direction give the camera no basis: the gaze
/// direction is zero; or the two directions are parallel, which is decided
/// exactly on the directions as they are given; or the cross product of the
/// up direction and the unit vector against the gaze is near zero.
pub open spec fn degenerate_basis(gaze: Vec3d<Fixed>, top: Vec3d<Fixed>) -> bool {
    ||| zero_vector(gaze)
    ||| parallel(gaze, top)
    ||| near_zero(exact_cross(top, backward_axis(gaze)))
}

/// What is wrong with a gaze and an up direction, if anything: the up
/// direction is beyond its limit, or the two give the camera no basis.
pub open spec fn basis_error(gaze: Vec3d<Fixed>, top: Vec3d<Fixed>) -> Option<ConfigurationError> {
    if !up_within_limit(top) {
        Some(ConfigurationError::OutOfRange)
    } else if degenerate_basis(gaze, top) {
        Some(ConfigurationError::DegenerateBasis)
    } else {
        None
    }
}

/// The basis of a camera with the given gaze and up direction: `w` is the
/// unit vector opposite to the gaze, `u` the unit vector along the cross
/// product of the up direction and `w`, and `v` the unit vector along the
/// cross product of `w` and `u`. Every cross product is exact and every
/// axis is normalised on integers, so that each is rounded once.
pub open spec fn basis_spec(gaze: Vec3d<Fixed>, top: Vec3d<Fixed>) -> CameraBasis {
    let w = backward_axis(gaze);
    let c = exact_cross(top, w);
    let u = unit_spec(c.0, c.1, c.2);
    let d = exact_cross(w, u);
    CameraBasis { u, v: unit_spec(d.0, d.1, d.2), w }
}

/// Whether the three axes of a basis have a length of one to within
/// 4/65536.
pub open spec fn unit_axes(b: CameraBasis) -> bool {
    near_unit(b.u) && near_unit(b.v) && near_unit(b.w)
}

/// The dot product of two vectors, taken exactly on their raw components:
/// in units of 1/65536 squared.
pub open spec fn exact_dot(a: Vec3d<Fixed>, b: Vec3d<Fixed>) -> int {
    dot(a.x.raw as int, a.y.raw as int, a.z.raw as int, b.x.raw as int, b.y.raw as int, b.z.raw as int)
}

/// Whether two vectors of about unit length are at right angles to within
/// 3/65536: their exact dot product has a magnitude of at most 196620 in
/// units of 1/65536 squared, which is less than 0.00005.
pub open spec fn at_right_angles(a: Vec3d<Fixed>, b: Vec3d<Fixed>) -> bool {
    -196620 <= exact_dot(a, b) <= 196620
}

/// Whether a basis is orthonormal to within rounding: every axis has a
/// length of one to within 4/65536, and every two axes are at right angles
/// to within 3/65536.
pub open spec fn orthonormal(b: CameraBasis) -> bool {
    &&& unit_axes(b)
    &&& at_right_angles(b.u, b.w)
    &&& at_right_angles(b.v, b.w)
    &&& at_right_angles(b.v, b.u)
}

/// No component of a vector of length one to within 4/65536 has a raw
/// magnitude above 65540.
pub proof fn lemma_unit_components(v: Vec3d<Fixed>)
    requires
        near_unit(v),
    ensures
        -65540 <= v.x.raw <= 65540,
        -65540 <= v.y.raw <= 65540,
        -65540 <= v.z.raw <= 65540,
        !zero_vector(v),
{
    let x = v.x.raw as int;
    let y = v.y.raw as int;
    let z = v.z.raw as int;
    assert(x * x >= 0 && y * y >= 0 && z * z >= 0) by (nonlinear_arith);
    assert(-65540 <= x <= 65540) by (nonlinear_arith)
        requires
            x * x <= 4295491600,
    ;
    assert(-65540 <= y <= 65540) by (nonlinear_arith)
        requires
            y * y <= 4295491600,
    ;
    assert(-65540 <= z <= 65540) by (nonlinear_arith)
        requires
            z * z <= 4295491600,
    ;
}

/// For a vector `u` parallel to `w`, a component of `w` times the dot
/// product of any `c` with `u` is that component of `u` times the dot
/// product of `c` with `w`.
pub proof fn lemma_scaled_along(w0: int, w1: int, w2: int, u0: int, u1: int, u2: int, c0: int, c1: int, c2: int)
    requires
        w0 * u1 == w1 * u0,
        w0 * u2 == w2 * u0,
    ensures
        w0 * (c0 * u0 + c1 * u1 + c2 * u2) == u0 * (c0 * w0 + c1 * w1 + c2 * w2),
{
    let a1 = w0 * u1;
    let b1 = w1 * u0;
    let a2 = w0 * u2;
    let b2 = w2 * u0;
    assert(w0 * (c0 * u0) == u0 * (c0 * w0)) by (nonlinear_arith);
    assert(w0 * (c1 * u1) == c1 * a1) by (nonlinear_arith)
        requires
            a1 == w0 * u1,
    ;
    assert(u0 * (c1 * w1) == c1 * b1) by (nonlinear_arith)
        requires
            b1 == w1 * u0,
    ;
    assert(w0 * (c2 * u2) == c2 * a2) by (nonlinear_arith)
        requires
            a2 == w0 * u2,
    ;
    assert(u0 * (c2 * w2) == c2 * b2) by (nonlinear_arith)
        requires
            b2 == w2 * u0,
    ;
    assert(w0 * (c0 * u0 + c1 * u1 + c2 * u2) == w0 * (c0 * u0) + w0 * (c1 * u1) + w0 * (c2 * u2))
        by (nonlinear_arith);
    assert(u0 * (c0 * w0 + c1 * w1 + c2 * w2) == u0 * (c0 * w0) + u0 * (c1 * w1) + u0 * (c2 * w2))
        by (nonlinear_arith);
}

/// A vector that is not zero and keeps the signs of a direction at right
/// angles to `w` is not parallel to `w`. Here `(cx, cy, cz)` is the
/// direction, `(ux, uy, uz)` the vector and `(wx, wy, wz)` is `w`.
pub proof fn lemma_not_parallel(cx: int, cy: int, cz: int, ux: int, uy: int, uz: int, wx: int, wy: int, wz: int)
    requires
        cx * wx + cy * wy + cz * wz == 0,
        sign_kept(cx, ux),
        sign_kept(cy, uy),
        sign_kept(cz, uz),
        !(ux == 0 && uy == 0 && uz == 0),
        !(wx == 0 && wy == 0 && wz == 0),
    ensures
        !(wy * uz - wz * uy == 0 && wz * ux - wx * uz == 0 && wx * uy - wy * ux == 0),
{
    // The direction and the vector point to the same side.
    let px = cx * ux;
    let py = cy * uy;
    let pz = cz * uz;
    assert(px >= 0 && (ux != 0 ==> px > 0)) by (nonlinear_arith)
        requires
            px == cx * ux,
            sign_kept(cx, ux),
    ;
    assert(py >= 0 && (uy != 0 ==> py > 0)) by (nonlinear_arith)
        requires
            py == cy * uy,
            sign_kept(cy, uy),
    ;
    assert(pz >= 0 && (uz != 0 ==> pz > 0)) by (nonlinear_arith)
        requires
            pz == cz * uz,
            sign_kept(cz, uz),
    ;
    let along = px + py + pz;
    assert(along > 0);
    if wy * uz - wz * uy == 0 && wz * ux - wx * uz == 0 && wx * uy - wy * ux == 0 {
        // A vector parallel to `w` would be at right angles to the
        // direction, as `w` is.
        let across = cx * wx + cy * wy + cz * wz;
        lemma_scaled_along(wx, wy, wz, ux, uy, uz, cx, cy, cz);
        lemma_scaled_along(wy, wx, wz, uy, ux, uz, cy, cx, cz);
        lemma_scaled_along(wz, wx, wy, uz, ux, uy, cz, cx, cy);
        assert(wx * along == ux * across);
        assert(wy * along == uy * across);
        assert(wz * along == uz * across);
        assert(ux * across == 0 && uy * across == 0 && uz * across == 0) by (nonlinear_arith)
            requires
                across == 0,
        ;
        assert(false) by (nonlinear_arith)
            requires
                wx * along == 0,
                wy * along == 0,
                wz * along == 0,
                along > 0,
                !(wx == 0 && wy == 0 && wz == 0),
        ;
    }
}

/// The exact cross product of two vectors is at right angles to both.
pub proof fn lemma_cross_is_across(a: Vec3d<Fixed>, b: Vec3d<Fixed>)
    ensures
        exact_cross(a, b).0 * b.x.raw + exact_cross(a, b).1 * b.y.raw + exact_cross(a, b).2 * b.z.raw == 0,
        exact_cross(a, b).0 * a.x.raw + exact_cross(a, b).1 * a.y.raw + exact_cross(a, b).2 * a.z.raw == 0,
{
    let ax = a.x.raw as int;
    let ay = a.y.raw as int;
    let az = a.z.raw as int;
    let bx = b.x.raw as int;
    let by = b.y.raw as int;
    let bz = b.z.raw as int;
    assert((ay * bz - az * by) * bx + (az * bx - ax * bz) * by + (ax * by - ay * bx) * bz == 0)
        by (nonlinear_arith);
    assert((ay * bz - az * by) * ax + (az * bx - ax * bz) * ay + (ax * by - ay * bx) * az == 0)
        by (nonlinear_arith);
}

fn within_up_limit(top: &Vec3d<Fixed>) -> (r: bool)
    ensures
        r == up_within_limit(*top),
{
    -UP_LIMIT <= top.x.raw && top.x.raw <= UP_LIMIT && -UP_LIMIT <= top.y.raw && top.y.raw <= UP_LIMIT && -UP_LIMIT
        <= top.z.raw && top.z.raw <= UP_LIMIT
}

fn bounded_product(a: i64, b: i64) -> (p: i128)
    requires
        -0x2000_0000_0000 <= a <= 0x2000_0000_0000,
        -0x2_0000 <= b <= 0x2_0000,
    ensures
        p == a * b,
        -0x4000_0000_0000_0000 <= p <= 0x4000_0000_0000_0000,
{
    proof {
        lemma_product_bound(a as int, b as int, 0x2000_0000_0000, 0x2_0000);
    }
    (a as i128) * (b as i128)
}

/// The exact cross product of a vector within the limit of an up direction
/// and a vector of length one to within 4/65536.
fn cross_exactly(a: &Vec3d<Fixed>, b: &Vec3d<Fixed>) -> (c: (i128, i128, i128))
    requires
        up_within_limit(*a),
        near_unit(*b),
    ensures
        (c.0 as int, c.1 as int, c.2 as int) == exact_cross(*a, *b),
        normalisable(c.0 as int),
        normalisable(c.1 as int),
        normalisable(c.2 as int),
{
    proof {
        lemma_unit_components(*b);
    }
    (
        bounded_product(a.y.raw, b.z.raw) - bounded_product(a.z.raw, b.y.raw),
        bounded_product(a.z.raw, b.x.raw) - bounded_product(a.x.raw, b.z.raw),
        bounded_product(a.x.raw, b.y.raw) - bounded_product(a.y.raw, b.x.raw),
    )
}

fn is_near_zero(c: (i128, i128, i128)) -> (r: bool)
    requires
        normalisable(c.0 as int),
        normalisable(c.1 as int),
        normalisable(c.2 as int),
    ensures
        r == near_zero((c.0 as int, c.1 as int, c.2 as int)),
{
    let sum: u128 = square_wide(c.0) + square_wide(c.1) + square_wide(c.2);
    sum <= 0x1_0000_0000_0000
}

fn square_wide(v: i128) -> (s: u128)
    requires
        normalisable(v as int),
    ensures
        s == v * v,
        s <= 0x4000_0000_0000_0000_0000_0000_0000_0000,
{
    assert(0 <= v * v <= 0x4000_0000_0000_0000_0000_0000_0000_0000) by (nonlinear_arith)
        requires
            -0x8000_0000_0000_0000 <= v <= 0x8000_0000_0000_0000,
    ;
    (v * v) as u128
}

/// The basis of a camera with the given gaze and up direction. It is
/// orthonormal to within rounding, whatever the lengths of the two
/// directions: its axes have a length of one to within 4/65536 and are at
/// right angles to within 3/65536.
pub fn camera_basis(gaze: Vec3d<Fixed>, top: Vec3d<Fixed>) -> (r: Result<CameraBasis, ConfigurationError>)
    ensures
        r.is_ok() <==> basis_error(gaze, top) is None,
        r matches Ok(b) ==> b == basis_spec(gaze, top) && orthonormal(b),
        r matches Err(e) ==> basis_error(gaze, top) == Some(e),
{
    if !within_up_limit(&top) {
        return Err(ConfigurationError::OutOfRange);
    }
    if is_zero_vector(&gaze) || is_parallel(&gaze, &top) {
        return Err(ConfigurationError::DegenerateBasis);
    }
    let w = unit_vector(-(gaze.x.raw as i128), -(gaze.y.raw as i128), -(gaze.z.raw as i128));
    let c = cross_exactly(&top, &w);
    if is_near_zero(c) {
        return Err(ConfigurationError::DegenerateBasis);
    }
    assert(!(c.0 == 0 && c.1 == 0 && c.2 == 0));
    let u = unit_vector(c.0, c.1, c.2);
    proof {
        lemma_unit_components(w);
    }
    let d = cross_exactly(&w, &u);
    proof {
        lemma_unit_components(u);
        lemma_cross_is_across(top, w);
        lemma_not_parallel(
            c.0 as int,
            c.1 as int,
            c.2 as int,
            u.x.raw as int,
            u.y.raw as int,
            u.z.raw as int,
            w.x.raw as int,
            w.y.raw as int,
            w.z.raw as int,
        );
    }
    let v = unit_vector(d.0, d.1, d.2);
    proof {
        lemma_cross_is_across(w, u);
        lemma_unit_across(
            c.0 as int,
            c.1 as int,
            c.2 as int,
            w.x.raw as int,
            w.y.raw as int,
            w.z.raw as int,
        );
        lemma_unit_across(
            d.0 as int,
            d.1 as int,
            d.2 as int,
            w.x.raw as int,
            w.y.raw as int,
            w.z.raw as int,
        );
        lemma_unit_across(
            d.0 as int,
            d.1 as int,
            d.2 as int,
            u.x.raw as int,
            u.y.raw as int,
            u.z.raw as int,
        );
    }
    Ok(CameraBasis { u, v, w })
}

/// The matrix of a displacement by `eye`.
pub open spec fn translation_spec(eye: Vec3d<Fixed>) -> Matrix4x4<Fixed> {
    Matrix4x4 {
        rows: [
            [one(), zero(), zero(), eye.x],
            [zero(), one(), zero(), eye.y],
            [zero(), zero(), one(), eye.z],
            [zero(), zero(), zero(), one()],
        ],
    }
}

/// The matrix that displaces a point by the vector `eye`.
pub fn translation_matrix(eye: Vec3d<Fixed>) -> (m: Matrix4x4<Fixed>)
    ensures
        m == translation_spec(eye),
{
    let _0 = Fixed::from_int(0);
    let _1 = Fixed::from_int(1);
    let m = Matrix4x4::new(_1, _0, _0, eye.x, _0, _1, _0, eye.y, _0, _0, _1, eye.z, _0, _0, _0, _1);
    proof {
        Matrix4x4::lemma_same_entries(m, translation_spec(eye));
    }
    m
}

/// The matrix whose first three rows are the axes of a camera basis.
pub open spec fn rotation_spec(b: CameraBasis) -> Matrix4x4<Fixed> {
    Matrix4x4 {
        rows: [
            [b.u.x, b.u.y, b.u.z, zero()],
            [b.v.x, b.v.y, b.v.z, zero()],
            [b.w.x, b.w.y, b.w.z, zero()],
            [zero(), zero(), zero(), one()],
        ],
    }
}

fn rotation_of(b: &CameraBasis) -> (m: Matrix4x4<Fixed>)
    ensures
        m == rotation_spec(*b),
{
    let _0 = Fixed::from_int(0);
    let _1 = Fixed::from_int(1);
    let m = Matrix4x4::new(
        b.u.x,
        b.u.y,
        b.u.z,
        _0,
        b.v.x,
        b.v.y,
        b.v.z,
        _0,
        b.w.x,
        b.w.y,
        b.w.z,
        _0,
        _0,
        _0,
        _0,
        _1,
    );
    proof {
        Matrix4x4::lemma_same_entries(m, rotation_spec(*b));
    }
    m
}

/// The matrix that turns world coordinates into the orientation of a
/// camera with the given gaze and up direction. It fails when the two
/// directions give the camera no basis.
pub fn rotation_matrix(gaze: Vec3d<Fixed>, top: Vec3d<Fixed>) -> (r: Result<Matrix4x4<Fixed>, ConfigurationError>)
    ensures
        r.is_ok() <==> basis_error(gaze, top) is None,
        r matches Ok(m) ==> m == rotation_spec(basis_spec(gaze, top)),
        r.is_ok() ==> orthonormal(basis_spec(gaze, top)),
        r matches Err(e) ==> basis_error(gaze, top) == Some(e),
{
    match camera_basis(gaze, top) {
        Ok(b) => Ok(rotation_of(&b)),
        Err(e) => Err(e),
    }
}

/// The matrix whose first three columns are the axes of a camera basis and
/// whose fourth column is the position of the eye.
pub open spec fn camera_to_world_spec(eye: Vec3d<Fixed>, b: CameraBasis) -> Matrix4x4<Fixed> {
    Matrix4x4 {
        rows: [
            [b.u.x, b.v.x, b.w.x, eye.x],
            [b.u.y, b.v.y, b.w.y, eye.y],
            [b.u.z, b.v.z, b.w.z, eye.z],
            [zero(), zero(), zero(), one()],
        ],
    }
}

/// The matrix that turns camera coordinates into world coordinates, for a
/// camera at `eye` with the given gaze and up direction. It fails when the
/// two directions give the camera no basis.
pub fn camera_to_world_matrix(eye: Vec3d<Fixed>, gaze: Vec3d<Fixed>, top: Vec3d<Fixed>) -> (r: Result<
    Matrix4x4<Fixed>,
    ConfigurationError,
>)
    ensures
        r.is_ok() <==> basis_error(gaze, top) is None,
        r matches Ok(m) ==> m == camera_to_world_spec(eye, basis_spec(gaze, top)),
        r.is_ok() ==> orthonormal(basis_spec(gaze, top)),
        r matches Err(e) ==> basis_error(gaze, top) == Some(e),
{
    let b = match camera_basis(gaze, top) {
        Ok(b) => b,
        Err(e) => {
            return Err(e);
        },
    };
    let _0 = Fixed::from_int(0);
    let _1 = Fixed::from_int(1);
    let m = Matrix4x4::new(
        b.u.x,
        b.v.x,
        b.w.x,
        eye.x,
        b.u.y,
        b.v.y,
        b.w.y,
        eye.y,
        b.u.z,
        b.v.z,
        b.w.z,
        eye.z,
        _0,
        _0,
        _0,
        _1,
    );
    proof {
        Matrix4x4::lemma_same_entries(m, camera_to_world_spec(eye, b));
    }
    Ok(m)
}

/// The matrix that turns world coordinates into camera coordinates: the
/// displacement that brings the eye to the origin, followed by the rotation
/// into the camera's basis.
pub open spec fn world_to_camera_spec(eye: Vec3d<Fixed>, gaze: Vec3d<Fixed>, top: Vec3d<Fixed>) -> Matrix4x4<
    Fixed,
> {
    rotation_spec(basis_spec(gaze, top)).product_spec(translation_spec(negated(eye)))
}

/// The product of two matrices of fixed-point numbers, which asks nothing
/// of its operands.
pub fn compose(a: &Matrix4x4<Fixed>, b: &Matrix4x4<Fixed>) -> (m: Matrix4x4<Fixed>)
    ensures
        m == a.product_spec(*b),
{
    assert(a.product_req(*b)) by {
        assert forall|i: int, j: int| 0 <= i < 4 && 0 <= j < 4 implies #[trigger] a.entry_req(*b, i, j) by {}
    }
    let mut m = *a;
    a.multiply(b, &mut m);
    m
}

/// The matrix that turns world coordinates into the coordinates of a
/// camera at `eye` with the given gaze and up direction. It fails when the
/// two directions give the camera no basis.
pub fn world_to_camera_matrix(eye: Vec3d<Fixed>, gaze: Vec3d<Fixed>, top: Vec3d<Fixed>) -> (r: Result<
    Matrix4x4<Fixed>,
    ConfigurationError,
>)
    ensures
        r.is_ok() <==> basis_error(gaze, top) is None,
        r matches Ok(m) ==> m == world_to_camera_spec(eye, gaze, top),
        r.is_ok() ==> orthonormal(basis_spec(gaze, top)),
        r matches Err(e) ==> basis_error(gaze, top) == Some(e),
{
    let b = match camera_basis(gaze, top) {
        Ok(b) => b,
        Err(e) => {
            return Err(e);
        },
    };
    let m_rot = rotation_of(&b);
    let m_trans = translation_matrix(eye.neg());
    Ok(compose(&m_rot, &m_trans))
}

/// The matrix of the perspective map for the given near and far planes.
pub open spec fn perspective_spec(near: Fixed, far: Fixed) -> Matrix4x4<Fixed> {
    Matrix4x4 {
        rows: [
            [near, zero(), zero(), zero()],
            [zero(), near, zero(), zero()],
            [zero(), zero(), near.add_spec(far), far.neg_spec().mul_spec(near)],
            [zero(), zero(), one(), zero()],
        ],
    }
}

/// Whether the near and the far plane lie in front of the camera, which
/// looks down the negative z axis, with the near plane before the far
/// plane: both coordinates are negative and that of the near plane is the
/// greater one.
pub open spec fn planes_in_order(near: Fixed, far: Fixed) -> bool {
    far.raw < near.raw && near.raw < 0
}

fn check_planes(near: Fixed, far: Fixed) -> (r: bool)
    ensures
        r == planes_in_order(near, far),
{
    far.raw < near.raw && near.raw < 0
}

/// The matrix that maps the view frustum between the near and the far
/// plane to a box, keeping the two planes in place. It fails when the two
/// planes are not in order.
pub fn perspective_matrix(near: Fixed, far: Fixed) -> (r: Result<Matrix4x4<Fixed>, ConfigurationError>)
    ensures
        r.is_ok() <==> planes_in_order(near, far),
        r matches Ok(m) ==> m == perspective_spec(near, far),
        r matches Err(e) ==> e == ConfigurationError::NearFar,
{
    if !check_planes(near, far) {
        return Err(ConfigurationError::NearFar);
    }
    let _0 = Fixed::from_int(0);
    let _1 = Fixed::from_int(1);
    let m = Matrix4x4::new(near, _0, _0, _0, _0, near, _0, _0, _0, _0, near + far, far.neg() * near, _0, _0, _1, _0);
    proof {
        Matrix4x4::lemma_same_entries(m, perspective_spec(near, far));
    }
    Ok(m)
}

/// What is wrong with a view volume, if anything: the near and the far
/// plane are not in order, or the volume has no width or no height.
pub open spec fn volume_error(left: Fixed, right: Fixed, top: Fixed, bottom: Fixed, near: Fixed, far: Fixed) -> Option<
    ConfigurationError,
> {
    if !planes_in_order(near, far) {
        Some(ConfigurationError::NearFar)
    } else if left.raw == right.raw || top.raw == bottom.raw {
        Some(ConfigurationError::EmptyVolume)
    } else {
        None
    }
}

fn check_volume(left: Fixed, right: Fixed, top: Fixed, bottom: Fixed, near: Fixed, far: Fixed) -> (r: Option<
    ConfigurationError,
>)
    ensures
        r == volume_error(left, right, top, bottom, near, far),
{
    if !check_planes(near, far) {
        Some(ConfigurationError::NearFar)
    } else if left.raw == right.raw || top.raw == bottom.raw {
        Some(ConfigurationError::EmptyVolume)
    } else {
        None
    }
}

/// The matrix of the map from a box to the canonical view volume.
pub open spec fn orthographic_spec(left: Fixed, right: Fixed, top: Fixed, bottom: Fixed, near: Fixed, far: Fixed) -> Matrix4x4<
    Fixed,
> {
    Matrix4x4 {
        rows: [
            [
                two().div_spec(right.sub_spec(left)),
                zero(),
                zero(),
                right.add_spec(left).neg_spec().div_spec(right.sub_spec(left)),
            ],
            [
                zero(),
                two().div_spec(top.sub_spec(bottom)),
                zero(),
                top.add_spec(bottom).neg_spec().div_spec(top.sub_spec(bottom)),
            ],
            [
                zero(),
                zero(),
                two().div_spec(near.sub_spec(far)),
                near.add_spec(far).div_spec(near.sub_spec(far)).neg_spec(),
            ],
            [zero(), zero(), zero(), one()],
        ],
    }
}

/// The matrix that maps the box with the given sides to the canonical view
/// volume, the cube from -1 to 1 in every coordinate. It fails when the
/// near and the far plane are not in order or the box has no width or no
/// height.
pub fn orthographic_matrix(left: Fixed, right: Fixed, top: Fixed, bottom: Fixed, near: Fixed, far: Fixed) -> (r:
    Result<Matrix4x4<Fixed>, ConfigurationError>)
    ensures
        r.is_ok() <==> volume_error(left, right, top, bottom, near, far) is None,
        r matches Ok(m) ==> m == orthographic_spec(left, right, top, bottom, near, far),
        r matches Err(e) ==> volume_error(left, right, top, bottom, near, far) == Some(e),
{
    match check_volume(left, right, top, bottom, near, far) {
        Some(e) => {
            return Err(e);
        },
        None => {},
    }
    let _0 = Fixed::from_int(0);
    let _1 = Fixed::from_int(1);
    let _2 = Fixed::from_int(2);
    let m = Matrix4x4::new(
        _2 / (right - left),
        _0,
        _0,
        (right + left).neg() / (right - left),
        _0,
        _2 / (top - bottom),
        _0,
        (top + bottom).neg() / (top - bottom),
        _0,
        _0,
        _2 / (near - far),
        ((near + far) / (near - far)).neg(),
        _0,
        _0,
        _0,
        _1,
    );
    proof {
        Matrix4x4::lemma_same_entries(m, orthographic_spec(left, right, top, bottom, near, far));
    }
    Ok(m)
}

/// The matrix of the perspective projection of a view frustum.
pub open spec fn perspective_projection_spec(
    left: Fixed,
    right: Fixed,
    top: Fixed,
    bottom: Fixed,
    near: Fixed,
    far: Fixed,
) -> Matrix4x4<Fixed> {
    Matrix4x4 {
        rows: [
            [
                two().mul_spec(near).div_spec(right.sub_spec(left)),
                zero(),
                left.add_spec(right).div_spec(left.sub_spec(right)),
                zero(),
            ],
            [
                zero(),
                two().mul_spec(near).div_spec(top.sub_spec(bottom)),
                bottom.add_spec(top).div_spec(bottom.sub_spec(top)),
                zero(),
            ],
            [
                zero(),
                zero(),
                far.add_spec(near).div_spec(near.sub_spec(far)),
                two().mul_spec(far).mul_spec(near).div_spec(far.sub_spec(near)),
            ],
            [zero(), zero(), one(), zero()],
        ],
    }
}

/// The matrix that maps the view frustum with the given sides on the near
/// plane to the canonical view volume, the cube from -1 to 1 in every
/// coordinate. It fails when the near and the far plane are not in order
/// or the frustum has no width or no height.
pub fn perspective_projection_matrix(
    left: Fixed,
    right: Fixed,
    top: Fixed,
    bottom: Fixed,
    near: Fixed,
    far: Fixed,
) -> (r: Result<Matrix4x4<Fixed>, ConfigurationError>)
    ensures
        r.is_ok() <==> volume_error(left, right, top, bottom, near, far) is None,
        r matches Ok(m) ==> m == perspective_projection_spec(left, right, top, bottom, near, far),
        r matches Err(e) ==> volume_error(left, right, top, bottom, near, far) == Some(e),
{
    match check_volume(left, right, top, bottom, near, far) {
        Some(e) => {
            return Err(e);
        },
        None => {},
    }
    let _0 = Fixed::from_int(0);
    let _1 = Fixed::from_int(1);
    let _2 = Fixed::from_int(2);
    let m = Matrix4x4::new(
        (_2 * near) / (right - left),
        _0,
        (left + right) / (left - right),
        _0,
        _0,
        (_2 * near) / (top - bottom),
        (bottom + top) / (bottom - top),
        _0,
        _0,
        _0,
        (far + near) / (near - far),
        (_2 * far * near) / (far - near),
        _0,
        _0,
        _1,
        _0,
    );
    proof {
        Matrix4x4::lemma_same_entries(m, perspective_projection_spec(left, right, top, bottom, near, far));
    }
    Ok(m)
}

/// The fixed-point number nearest to a count of pixels.
pub open spec fn pixels_spec(n: int) -> Fixed {
    Fixed { raw: saturate(n * 65536) }
}

fn pixels(n: usize) -> (f: Fixed)
    ensures
        f == pixels_spec(n as int),
{
    let wide: u64 = n as u64;
    if wide > 0x7fff_ffff_ffff {
        Fixed { raw: i64::MAX }
    } else {
        Fixed { raw: (wide as i64) * 65536 }
    }
}

/// The matrix of the viewport map for an image of `num_x` by `num_y`
/// pixels.
pub open spec fn viewport_spec(num_x: int, num_y: int) -> Matrix4x4<Fixed> {
    Matrix4x4 {
        rows: [
            [pixels_spec(num_x).div_spec(two()), zero(), zero(), pixels_spec(num_x).sub_spec(one()).div_spec(two())],
            [zero(), pixels_spec(num_y).div_spec(two()), zero(), pixels_spec(num_y).sub_spec(one()).div_spec(two())],
            [zero(), zero(), one(), zero()],
            [zero(), zero(), zero(), one()],
        ],
    }
}

/// The matrix that maps the square from -1 to 1 in the first two
/// coordinates to pixel coordinates, from -1/2 to `num_x - 1/2` and from
/// -1/2 to `num_y - 1/2`, so that a pixel is one unit wide and has its
/// centre at whole coordinates. The third coordinate passes through
/// unchanged.
pub fn viewport_matrix(num_x: usize, num_y: usize) -> (m: Matrix4x4<Fixed>)
    ensures
        m == viewport_spec(num_x as int, num_y as int),
{
    let _0 = Fixed::from_int(0);
    let _1 = Fixed::from_int(1);
    let _2 = Fixed::from_int(2);
    let image_width = pixels(num_x);
    let image_height = pixels(num_y);
    let m = Matrix4x4::new(
        image_width / _2,
        _0,
        _0,
        (image_width - _1) / _2,
        _0,
        image_height / _2,
        _0,
        (image_height - _1) / _2,
        _0,
        _0,
        _1,
        _0,
        _0,
        _0,
        _0,
        _1,
    );
    proof {
        Matrix4x4::lemma_same_entries(m, viewport_spec(num_x as int, num_y as int));
    }
    m
}

/// What is wrong with the placement of a camera and its view volume, if
/// anything: the error of the view volume comes first, then that of the two
/// directions.
pub open spec fn chain_error(
    gaze: Vec3d<Fixed>,
    up: Vec3d<Fixed>,
    left: Fixed,
    right: Fixed,
    top: Fixed,
    bottom: Fixed,
    near: Fixed,
    far: Fixed,
) -> Option<ConfigurationError> {
    if volume_error(left, right, top, bottom, near, far) is Some {
        volume_error(left, right, top, bottom, near, far)
    } else {
        basis_error(gaze, up)
    }
}

/// The matrix that turns world coordinates into raster coordinates.
pub open spec fn world_to_raster_spec(
    eye: Vec3d<Fixed>,
    gaze: Vec3d<Fixed>,
    up: Vec3d<Fixed>,
    left: Fixed,
    right: Fixed,
    top: Fixed,
    bottom: Fixed,
    near: Fixed,
    far: Fixed,
    image_width: int,
    image_height: int,
) -> Matrix4x4<Fixed> {
    viewport_spec(image_width, image_height).product_spec(
        perspective_projection_spec(left, right, top, bottom, near, far),
    ).product_spec(world_to_camera_spec(eye, gaze, up))
}

/// The matrix that turns world coordinates into raster coordinates, for a
/// camera at `eye` with the given gaze and up direction: the change to
/// camera coordinates, followed by the perspective projection of the view
/// frustum with the given sides, followed by the viewport map of the
/// image. Applied to a point in homogeneous coordinates and followed by the
/// perspective divide it gives the raster position of the point. It fails
/// as the perspective projection does, and when the two directions give the
/// camera no basis.
pub fn world_to_raster_matrix(
    eye: Vec3d<Fixed>,
    gaze: Vec3d<Fixed>,
    up: Vec3d<Fixed>,
    left: Fixed,
    right: Fixed,
    top: Fixed,
    bottom: Fixed,
    near: Fixed,
    far: Fixed,
    image_width: usize,
    image_height: usize,
) -> (r: Result<Matrix4x4<Fixed>, ConfigurationError>)
    ensures
        r.is_ok() <==> chain_error(gaze, up, left, right, top, bottom, near, far) is None,
        r matches Ok(m) ==> m == world_to_raster_spec(
            eye,
            gaze,
            up,
            left,
            right,
            top,
            bottom,
            near,
            far,
            image_width as int,
            image_height as int,
        ),
        r matches Err(e) ==> chain_error(gaze, up, left, right, top, bottom, near, far) == Some(e),
{
    let pp_matrix = match perspective_projection_matrix(left, right, top, bottom, near, far) {
        Ok(m) => m,
        Err(e) => {
            return Err(e);
        },
    };
    let cam_matrix = match world_to_camera_matrix(eye, gaze, up) {
        Ok(m) => m,
        Err(e) => {
            return Err(e);
        },
    };
    let vp_matrix = viewport_matrix(image_width, image_height);
    let m = compose(&vp_matrix, &pp_matrix);
    Ok(compose(&m, &cam_matrix))
}

/// Coordinate `i` of the image of the point `p`, taken with a fourth
/// coordinate of one, under the matrix `m`.
pub open spec fn image_coordinate(m: Matrix4x4<Fixed>, p: Vec3d<Fixed>, i: int) -> Fixed {
    m.at(i, 0).mul_spec(p.x).add_spec(m.at(i, 1).mul_spec(p.y)).add_spec(m.at(i, 2).mul_spec(p.z)).add_spec(
        m.at(i, 3),
    )
}

/// The image of the point `p` under the matrix `m` after the perspective
/// divide: the first three coordinates of the image divided by the fourth.
pub open spec fn transformed(m: Matrix4x4<Fixed>, p: Vec3d<Fixed>) -> Vec3d<Fixed> {
    Vec3d {
        x: image_coordinate(m, p, 0).div_spec(image_coordinate(m, p, 3)),
        y: image_coordinate(m, p, 1).div_spec(image_coordinate(m, p, 3)),
        z: image_coordinate(m, p, 2).div_spec(image_coordinate(m, p, 3)),
    }
}

fn coordinate_of_image(m: &Matrix4x4<Fixed>, p: &Vec3d<Fixed>, i: usize) -> (c: Fixed)
    requires
        i < 4,
    ensures
        c == image_coordinate(*m, *p, i as int),
{
    m.entry(i, 0) * p.x + m.entry(i, 1) * p.y + m.entry(i, 2) * p.z + m.entry(i, 3)
}

/// Applies a matrix to a point in homogeneous coordinates and performs the
/// perspective divide. Nothing is returned when the fourth coordinate of
/// the image is zero.
pub fn transform_point(m: &Matrix4x4<Fixed>, p: &Vec3d<Fixed>) -> (r: Option<Vec3d<Fixed>>)
    ensures
        r.is_some() <==> image_coordinate(*m, *p, 3).raw != 0,
        r matches Some(q) ==> q == transformed(*m, *p),
{
    let w = coordinate_of_image(m, p, 3);
    if w.is_zero() {
        return None;
    }
    let x = coordinate_of_image(m, p, 0);
    let y = coordinate_of_image(m, p, 1);
    let z = coordinate_of_image(m, p, 2);
    Some(Vec3d { x: x / w, y: y / w, z: z / w })
}

/// Coordinate `i` of the image of the vector `v` in homogeneous
/// coordinates under the matrix `m`.
pub open spec fn image_of_vector(m: Matrix4x4<Fixed>, v: Vec4d<Fixed>, i: int) -> Fixed {
    m.at(i, 0).mul_spec(v.x).add_spec(m.at(i, 1).mul_spec(v.y)).add_spec(m.at(i, 2).mul_spec(v.z)).add_spec(
        m.at(i, 3).mul_spec(v.w),
    )
}

fn coordinate_of_vector(m: &Matrix4x4<Fixed>, v: &Vec4d<Fixed>, i: usize) -> (c: Fixed)
    requires
        i < 4,
    ensures
        c == image_of_vector(*m, *v, i as int),
{
    m.entry(i, 0) * v.x + m.entry(i, 1) * v.y + m.entry(i, 2) * v.z + m.entry(i, 3) * v.w
}

/// Applies a matrix to a vector in homogeneous coordinates.
pub fn transform_vector(m: &Matrix4x4<Fixed>, v: &Vec4d<Fixed>) -> (r: Vec4d<Fixed>)
    ensures
        r.x == image_of_vector(*m, *v, 0),
        r.y == image_of_vector(*m, *v, 1),
        r.z == image_of_vector(*m, *v, 2),
        r.w == image_of_vector(*m, *v, 3),
{
    Vec4d {
        x: coordinate_of_vector(m, v, 0),
        y: coordinate_of_vector(m, v, 1),
        z: coordinate_of_vector(m, v, 2),
        w: coordinate_of_vector(m, v, 3),
    }
}

/// A fixed-point number in the units of raster positions, 1/256, rounded
/// down.
pub open spec fn raster_units(v: Fixed) -> int {
    v.raw as int / 256
}

/// The raster-space point of a point with fixed-point coordinates, whose
/// third coordinate is a depth: every coordinate in units of 1/256, rounded
/// down. Nothing is returned when a coordinate does not fit in 32 bits.
pub fn raster_point(p: &Vec3d<Fixed>) -> (r: Option<Point3>)
    ensures
        r.is_some() <==> {
            &&& i32::MIN <= raster_units(p.x) <= i32::MAX
            &&& i32::MIN <= raster_units(p.y) <= i32::MAX
            &&& i32::MIN <= raster_units(p.z) <= i32::MAX
        },
        r matches Some(q) ==> q.x == raster_units(p.x) && q.y == raster_units(p.y) && q.z == raster_units(p.z),
{
    let x: i128 = floor_div(p.x.raw as i128, 256);
    let y: i128 = floor_div(p.y.raw as i128, 256);
    let z: i128 = floor_div(p.z.raw as i128, 256);
    if x < i32::MIN as i128 || x > i32::MAX as i128 || y < i32::MIN as i128 || y > i32::MAX as i128 || z
        < i32::MIN as i128 || z > i32::MAX as i128 {
        None
    } else {
        Some(Point3 { x: x as i32, y: y as i32, z: z as i32 })
    }
}

/// Whether a number of raster units fits in 32 bits.
pub open spec fn fits(units: int) -> bool {
    i32::MIN <= units <= i32::MAX
}

/// The position of the vertex that a point in world coordinates becomes:
/// its first two coordinates are those of its image under the
/// world-to-raster matrix after the perspective divide; its third
/// coordinate, the depth, is the distance of the point in front of the
/// camera, which is the negative of the third coordinate of its image
/// under the world-to-camera matrix. All three are in units of 1/256,
/// rounded down.
pub open spec fn projected(
    world_to_raster: Matrix4x4<Fixed>,
    world_to_camera: Matrix4x4<Fixed>,
    point: Vec3d<Fixed>,
) -> (int, int, int) {
    (
        raster_units(transformed(world_to_raster, point).x),
        raster_units(transformed(world_to_raster, point).y),
        raster_units(transformed(world_to_camera, point).z.neg_spec()),
    )
}

/// Whether a point in world coordinates becomes a vertex: neither of its
/// two images has a fourth coordinate of zero, and its position fits in 32
/// bits.
pub open spec fn projectable(
    world_to_raster: Matrix4x4<Fixed>,
    world_to_camera: Matrix4x4<Fixed>,
    point: Vec3d<Fixed>,
) -> bool {
    &&& image_coordinate(world_to_raster, point, 3).raw != 0
    &&& image_coordinate(world_to_camera, point, 3).raw != 0
    &&& fits(projected(world_to_raster, world_to_camera, point).0)
    &&& fits(projected(world_to_raster, world_to_camera, point).1)
    &&& fits(projected(world_to_raster, world_to_camera, point).2)
}

/// The raster-space vertex of a point in world coordinates with the given
/// attributes. Nothing is returned when the point does not become a
/// vertex.
pub fn project_vertex(
    world_to_raster: &Matrix4x4<Fixed>,
    world_to_camera: &Matrix4x4<Fixed>,
    point: &Vec3d<Fixed>,
    color: Vector3,
    uv: Vector2,
) -> (r: Option<Vertex>)
    ensures
        r.is_some() <==> projectable(*world_to_raster, *world_to_camera, *point),
        r matches Some(v) ==> v == vertex_spec(*world_to_raster, *world_to_camera, *point, color, uv),
        r matches Some(v) ==> {
            &&& v.position.x == projected(*world_to_raster, *world_to_camera, *point).0
            &&& v.position.y == projected(*world_to_raster, *world_to_camera, *point).1
            &&& v.position.z == projected(*world_to_raster, *world_to_camera, *point).2
            &&& v.color == color
            &&& v.uv == uv
        },
{
    let on_screen = match transform_point(world_to_raster, point) {
        Some(p) => p,
        None => {
            return None;
        },
    };
    let in_camera = match transform_point(world_to_camera, point) {
        Some(p) => p,
        None => {
            return None;
        },
    };
    let flat = Vec3d { x: on_screen.x, y: on_screen.y, z: in_camera.z.neg() };
    match raster_point(&flat) {
        Some(position) => Some(Vertex { position, color, uv }),
        None => None,
    }
}

/// The point with the given raw fixed-point coordinates.
pub open spec fn world_point_spec(p: Point3) -> Vec3d<Fixed> {
    Vec3d { x: Fixed { raw: p.x as i64 }, y: Fixed { raw: p.y as i64 }, z: Fixed { raw: p.z as i64 } }
}

/// The point in world coordinates that a mesh holds as three raw
/// fixed-point coordinates.
pub fn world_point(p: &Point3) -> (v: Vec3d<Fixed>)
    ensures
        v == world_point_spec(*p),
{
    Vec3d { x: Fixed { raw: p.x as i64 }, y: Fixed { raw: p.y as i64 }, z: Fixed { raw: p.z as i64 } }
}

/// The vertex that a projectable point in world coordinates becomes.
pub open spec fn vertex_spec(
    world_to_raster: Matrix4x4<Fixed>,
    world_to_camera: Matrix4x4<Fixed>,
    point: Vec3d<Fixed>,
    color: Vector3,
    uv: Vector2,
) -> Vertex {
    Vertex {
        position: Point3 {
            x: projected(world_to_raster, world_to_camera, point).0 as i32,
            y: projected(world_to_raster, world_to_camera, point).1 as i32,
            z: projected(world_to_raster, world_to_camera, point).2 as i32,
        },
        color,
        uv,
    }
}

/// Multiplying by one or by zero, dividing by one and adding zero are
/// exact.
pub proof fn lemma_neutral_elements(x: Fixed)
    ensures
        one().mul_spec(x) == x,
        x.mul_spec(one()) == x,
        zero().mul_spec(x) == zero(),
        x.mul_spec(zero()) == zero(),
        x.div_spec(one()) == x,
        x.add_spec(zero()) == x,
        zero().add_spec(x) == x,
{
    assert((65536 * x.raw) / 65536 == x.raw);
    assert((x.raw * 65536) / 65536 == x.raw);
    assert((0 * x.raw) / 65536 == 0);
    assert((x.raw * 0) / 65536 == 0);
}

/// The matrix of a displacement moves a point by the displacement, as far
/// as the sums fit in 64 bits.
pub proof fn lemma_translation_displaces(t: Vec3d<Fixed>, p: Vec3d<Fixed>)
    requires
        i64::MIN <= p.x.raw + t.x.raw <= i64::MAX,
        i64::MIN <= p.y.raw + t.y.raw <= i64::MAX,
        i64::MIN <= p.z.raw + t.z.raw <= i64::MAX,
    ensures
        image_coordinate(translation_spec(t), p, 3) == one(),
        transformed(translation_spec(t), p) == (Vec3d {
            x: p.x.add_spec(t.x),
            y: p.y.add_spec(t.y),
            z: p.z.add_spec(t.z),
        }),
{
    let m = translation_spec(t);
    assert(m.at(0, 0) == one() && m.at(0, 1) == zero() && m.at(0, 2) == zero() && m.at(0, 3) == t.x);
    assert(m.at(1, 0) == zero() && m.at(1, 1) == one() && m.at(1, 2) == zero() && m.at(1, 3) == t.y);
    assert(m.at(2, 0) == zero() && m.at(2, 1) == zero() && m.at(2, 2) == one() && m.at(2, 3) == t.z);
    assert(m.at(3, 0) == zero() && m.at(3, 1) == zero() && m.at(3, 2) == zero() && m.at(3, 3) == one());
    lemma_neutral_elements(p.x);
    lemma_neutral_elements(p.y);
    lemma_neutral_elements(p.z);
    lemma_neutral_elements(zero());
    lemma_neutral_elements(one());
    assert(image_coordinate(m, p, 3) == one());
    assert(image_coordinate(m, p, 0) == p.x.add_spec(t.x));
    assert(image_coordinate(m, p, 1) == p.y.add_spec(t.y));
    assert(image_coordinate(m, p, 2) == p.z.add_spec(t.z));
    lemma_neutral_elements(p.x.add_spec(t.x));
    lemma_neutral_elements(p.y.add_spec(t.y));
    lemma_neutral_elements(p.z.add_spec(t.z));
}

/// The viewport map takes the corners of the square from -1 to 1 to the
/// outer corners of the first and the last pixel, at -1/2 and at the
/// image's size less 1/2, and leaves the third coordinate as it is.
pub proof fn lemma_viewport_corners(num_x: int, num_y: int, z: Fixed)
    requires
        0 <= num_x <= 0x4000_0000,
        0 <= num_y <= 0x4000_0000,
    ensures
        transformed(
            viewport_spec(num_x, num_y),
            Vec3d { x: Fixed { raw: (-65536) as i64 }, y: Fixed { raw: (-65536) as i64 }, z },
        ) == (Vec3d { x: Fixed { raw: (-32768) as i64 }, y: Fixed { raw: (-32768) as i64 }, z }),
        transformed(viewport_spec(num_x, num_y), Vec3d { x: one(), y: one(), z }) == (Vec3d {
            x: Fixed { raw: (num_x * 65536 - 32768) as i64 },
            y: Fixed { raw: (num_y * 65536 - 32768) as i64 },
            z,
        }),
{
    let m = viewport_spec(num_x, num_y);
    let w = pixels_spec(num_x);
    let h = pixels_spec(num_y);
    assert(w.raw == num_x * 65536 && h.raw == num_y * 65536);
    assert(m.at(0, 0) == w.div_spec(two()) && m.at(0, 1) == zero() && m.at(0, 2) == zero() && m.at(0, 3)
        == w.sub_spec(one()).div_spec(two()));
    assert(m.at(1, 0) == zero() && m.at(1, 1) == h.div_spec(two()) && m.at(1, 2) == zero() && m.at(1, 3)
        == h.sub_spec(one()).div_spec(two()));
    assert(m.at(2, 0) == zero() && m.at(2, 1) == zero() && m.at(2, 2) == one() && m.at(2, 3) == zero());
    assert(m.at(3, 0) == zero() && m.at(3, 1) == zero() && m.at(3, 2) == zero() && m.at(3, 3) == one());
    assert(w.div_spec(two()).raw == num_x * 32768);
    assert(h.div_spec(two()).raw == num_y * 32768);
    assert(w.sub_spec(one()).div_spec(two()).raw == num_x * 32768 - 32768);
    assert(h.sub_spec(one()).div_spec(two()).raw == num_y * 32768 - 32768);
    lemma_neutral_elements(z);
    lemma_neutral_elements(zero());
    lemma_neutral_elements(one());
    lemma_neutral_elements(w.div_spec(two()));
    lemma_neutral_elements(h.div_spec(two()));
    let low = Vec3d { x: Fixed { raw: (-65536) as i64 }, y: Fixed { raw: (-65536) as i64 }, z };
    let high = Vec3d { x: one(), y: one(), z };
    assert(zero().mul_spec(low.x) == zero() && zero().mul_spec(low.y) == zero());
    assert(w.div_spec(two()).mul_spec(low.x).raw == -(num_x * 32768)) by {
        assert((num_x * 32768 * -65536) / 65536 == -(num_x * 32768));
    }
    assert(h.div_spec(two()).mul_spec(low.y).raw == -(num_y * 32768)) by {
        assert((num_y * 32768 * -65536) / 65536 == -(num_y * 32768));
    }
    assert(image_coordinate(m, low, 3) == one());
    assert(image_coordinate(m, high, 3) == one());
    assert(image_coordinate(m, low, 2) == z);
    assert(image_coordinate(m, high, 2) == z);
    assert(image_coordinate(m, low, 0).raw == -32768);
    assert(image_coordinate(m, low, 1).raw == -32768);
    assert(image_coordinate(m, high, 0).raw == num_x * 65536 - 32768);
    assert(image_coordinate(m, high, 1).raw == num_y * 65536 - 32768);
    lemma_neutral_elements(image_coordinate(m, low, 0));
    lemma_neutral_elements(image_coordinate(m, low, 1));
    lemma_neutral_elements(image_coordinate(m, high, 0));
    lemma_neutral_elements(image_coordinate(m, high, 1));
}

} // verus!
