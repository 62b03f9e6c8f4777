//! Vertices and the perspective correction of their attributes.

use vstd::prelude::*;
use crate::fixed::floor_div;
use crate::geometry::{Point3, Vector2, Vector3};
use crate::z_buffer::MAX_DEPTH;

verus! {

/// A corner of a triangle: its raster-space position, whose third coordinate
/// is the view-space depth, and the attributes that shaders interpolate.
#[derive(Copy, Clone, Debug, PartialEq, Eq, Structural)]
pub struct Vertex {
    pub position: Point3,
    pub color: Vector3,
    pub uv: Vector2,
}

impl Vertex {
    pub fn new(position: Point3, color: Vector3, uv: Vector2) -> (v: Vertex)
        ensures
            v == (Vertex { position, color, uv }),
    {
        Vertex { position, color, uv }
    }
}

/// Three vertices in a fixed winding order.
#[derive(Copy, Clone, Debug, PartialEq, Eq, Structural)]
pub struct Triangle {
    pub v0: Vertex,
    pub v1: Vertex,
    pub v2: Vertex,
}

impl Triangle {
    pub fn new(v0: Vertex, v1: Vertex, v2: Vertex) -> (t: Triangle)
        ensures
            t == (Triangle { v0, v1, v2 }),
    {
        Triangle { v0, v1, v2 }
    }
}

/// Whether `z` is a depth that a surface can have.
pub open spec fn valid_depth(z: int) -> bool {
    1 <= z <= MAX_DEPTH
}

/// The attribute `vertex` with its first two components divided by the
/// depth `z`, rounded down.
pub open spec fn perspective_correct_spec(z: int, vertex: Vector3) -> Vector3 {
    Vector3 { x: (vertex.x as int / z) as i32, y: (vertex.y as int / z) as i32, z: vertex.z }
}

/// Dividing a 32-bit value by a depth gives a 32-bit value.
pub proof fn lemma_quotient_range(a: int, z: int)
    requires
        i32::MIN <= a <= i32::MAX,
        1 <= z,
    ensures
        i32::MIN <= a / z <= i32::MAX,
{
    assert(i32::MIN <= a / z <= i32::MAX) by (nonlinear_arith)
        requires
            i32::MIN <= a <= i32::MAX,
            1 <= z,
    ;
}

/// Perspective correction of a vertex attribute: the first two components
/// are divided by the depth of `position`. Nothing is returned when that
/// depth is zero or otherwise no depth of a surface.
pub fn perspective_correct(position: Point3, vertex: Vector3) -> (r: Option<Vector3>)
    ensures
        r.is_some() <==> valid_depth(position.z as int),
        r matches Some(v) ==> v == perspective_correct_spec(position.z as int, vertex),
{
    if position.z < 1 || position.z > MAX_DEPTH as i32 {
        return None;
    }
    proof {
        lemma_quotient_range(vertex.x as int, position.z as int);
        lemma_quotient_range(vertex.y as int, position.z as int);
    }
    let x: i128 = floor_div(vertex.x as i128, position.z as i128);
    let y: i128 = floor_div(vertex.y as i128, position.z as i128);
    Some(Vector3 { x: x as i32, y: y as i32, z: vertex.z })
}

/// Perspective correction of a vertex attribute in place. The answer tells
/// whether the depth of `position` was the depth of a surface; when it was
/// not, the attribute is left as it was.
pub fn perspective_correct_inplace(position: Point3, vertex: &mut Vector3) -> (done: bool)
    ensures
        done == valid_depth(position.z as int),
        done ==> *final(vertex) == perspective_correct_spec(position.z as int, *old(vertex)),
        !done ==> *final(vertex) == *old(vertex),
{
    match perspective_correct(position, *vertex) {
        Some(v) => {
            *vertex = v;
            true
        },
        None => false,
    }
}

} // verus!
