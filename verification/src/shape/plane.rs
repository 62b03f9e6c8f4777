//! A parallelogram as a mesh of two triangles.

use vstd::prelude::*;
use crate::geometry::Point3;
use crate::mesh::{Face, Mesh};

verus! {

pub type Plane = Mesh;

/// The corner opposite to `bottom_left`: `top_left` moved by the step from
/// `bottom_left` to `bottom_right`.
pub open spec fn top_right_spec(bottom_left: Point3, top_left: Point3, bottom_right: Point3) -> (int, int, int) {
    (
        top_left.x + (bottom_right.x - bottom_left.x),
        top_left.y + (bottom_right.y - bottom_left.y),
        top_left.z + (bottom_right.z - bottom_left.z),
    )
}

/// Whether a coordinate fits in 32 bits.
pub open spec fn representable(v: int) -> bool {
    i32::MIN <= v <= i32::MAX
}

fn coordinate(base: i32, from: i32, to: i32) -> (r: Option<i32>)
    ensures
        r.is_some() <==> representable(base + (to - from)),
        r matches Some(v) ==> v == base + (to - from),
{
    let v: i64 = (base as i64) + ((to as i64) - (from as i64));
    if v < i32::MIN as i64 || v > i32::MAX as i64 {
        None
    } else {
        Some(v as i32)
    }
}

/// The mesh of the parallelogram with the three given corners, made of the
/// two triangles that share the diagonal from `top_left` to `bottom_right`.
/// Nothing is returned when the fourth corner has a coordinate that does not
/// fit in 32 bits.
pub fn create(bottom_left: Point3, top_left: Point3, bottom_right: Point3) -> (r: Option<Plane>)
    ensures
        r.is_some() <==> {
            &&& representable(top_right_spec(bottom_left, top_left, bottom_right).0)
            &&& representable(top_right_spec(bottom_left, top_left, bottom_right).1)
            &&& representable(top_right_spec(bottom_left, top_left, bottom_right).2)
        },
        r matches Some(mesh) ==> {
            &&& mesh.spec_vertices() == seq![
                bottom_left,
                top_left,
                Point3 {
                    x: top_right_spec(bottom_left, top_left, bottom_right).0 as i32,
                    y: top_right_spec(bottom_left, top_left, bottom_right).1 as i32,
                    z: top_right_spec(bottom_left, top_left, bottom_right).2 as i32,
                },
                bottom_right,
            ]
            &&& mesh.spec_faces() == seq![Face { v0: 0, v1: 1, v2: 3 }, Face { v0: 3, v1: 1, v2: 2 }]
            &&& mesh.closed_under_lookup()
        },
{
    let x = match coordinate(top_left.x, bottom_left.x, bottom_right.x) {
        Some(x) => x,
        None => {
            return None;
        },
    };
    let y = match coordinate(top_left.y, bottom_left.y, bottom_right.y) {
        Some(y) => y,
        None => {
            return None;
        },
    };
    let z = match coordinate(top_left.z, bottom_left.z, bottom_right.z) {
        Some(z) => z,
        None => {
            return None;
        },
    };
    let v0 = bottom_left;
    let v1 = top_left;
    let v2 = Point3::new(x, y, z);
    let v3 = bottom_right;

    let face0 = Face::new(0, 1, 3);
    let face1 = Face::new(3, 1, 2);

    let mut mesh = Mesh::with_dims(4, 2);

    mesh.push_vertex(v0);
    mesh.push_vertex(v1);
    mesh.push_vertex(v2);
    mesh.push_vertex(v3);

    mesh.push_face(&face0);
    mesh.push_face(&face1);

    assert(mesh.spec_vertices() =~= seq![v0, v1, v2, v3]);
    assert(mesh.spec_faces() =~= seq![Face { v0: 0, v1: 1, v2: 3 }, Face { v0: 3, v1: 1, v2: 2 }]);
    Some(mesh)
}

} // verus!
