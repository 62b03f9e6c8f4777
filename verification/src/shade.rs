//! Shading functions on colour vectors and texture coordinates.

use vstd::prelude::*;
use crate::geometry::{Point3, Vector2, Vector3};
use crate::raster::{perspective_correct_weights, perspective_weights, BarycentricWeights, MAX_AREA};
use crate::shader::checkerboard::{checker, checker_color};
use crate::shader::texture::{interpolate, interpolated};
use crate::vertex::valid_depth;

verus! {

/// The number of tiles per unit of a texture coordinate that
/// [`checkerboard`] uses.
pub const CHECKERBOARD_TILES: usize = 10;

/// Whether the weights `w` and the depths of the vertices allow a
/// perspective correction: the depths are depths of surfaces, no weight is
/// negative, and the sum of the weights is positive and not above
/// [`MAX_AREA`].
pub open spec fn correctable(w: BarycentricWeights, v0: Point3, v1: Point3, v2: Point3) -> bool {
    &&& valid_depth(v0.z as int) && valid_depth(v1.z as int) && valid_depth(v2.z as int)
    &&& w.w0 >= 0 && w.w1 >= 0 && w.w2 >= 0
    &&& 0 < w.sum() <= MAX_AREA
}

/// The colour of a checkerboard with `m` tiles per unit at a point of a
/// triangle with the texture coordinates `st0`, `st1` and `st2` at its
/// vertices: the texture coordinate of the point is interpolated with the
/// perspective-correct weights.
pub open spec fn checkerboard_spec(
    st0: Vector2,
    st1: Vector2,
    st2: Vector2,
    v0: Point3,
    v1: Point3,
    v2: Point3,
    w: BarycentricWeights,
    m: int,
) -> Vector3 {
    let q = perspective_weights(1, (w.w0 as int, w.w1 as int, w.w2 as int), v0.z as int, v1.z as int, v2.z as int);
    checker_color(
        interpolated(q, st0.x as int, st1.x as int, st2.x as int),
        interpolated(q, st0.y as int, st1.y as int, st2.y as int),
        m,
    )
}

/// The checkerboard shading, with perspective correction, of a point on a
/// triangle, on a board with `n_squares` tiles per unit. Nothing is
/// returned when the weights and depths do not allow the correction, as
/// for a vertex of depth zero.
pub fn checkerboard_with(
    st0: Vector2,
    st1: Vector2,
    st2: Vector2,
    v0: Point3,
    v1: Point3,
    v2: Point3,
    w: &BarycentricWeights,
    n_squares: usize,
) -> (r: Option<Vector3>)
    ensures
        r.is_some() <==> correctable(*w, v0, v1, v2),
        r matches Some(c) ==> c == checkerboard_spec(st0, st1, st2, v0, v1, v2, *w, n_squares as int),
{
    let q = match perspective_correct_weights(w, v0.z, v1.z, v2.z) {
        Some(q) => q,
        None => {
            return None;
        },
    };
    let s = interpolate(&q, st0.x, st1.x, st2.x);
    let t = interpolate(&q, st0.y, st1.y, st2.y);
    Some(checker(Vector2 { x: s, y: t }, n_squares))
}

/// The checkerboard shading, with perspective correction, of a point on a
/// triangle, on a board with ten tiles per unit.
pub fn checkerboard(
    st0: Vector2,
    st1: Vector2,
    st2: Vector2,
    v0: Point3,
    v1: Point3,
    v2: Point3,
    w: &BarycentricWeights,
) -> (r: Option<Vector3>)
    ensures
        r.is_some() <==> correctable(*w, v0, v1, v2),
        r matches Some(c) ==> c == checkerboard_spec(st0, st1, st2, v0, v1, v2, *w, 10),
{
    checkerboard_with(st0, st1, st2, v0, v1, v2, w, CHECKERBOARD_TILES)
}

} // verus!
