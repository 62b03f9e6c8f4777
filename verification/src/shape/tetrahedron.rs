//! A tetrahedron as a mesh of four triangles.

use vstd::prelude::*;
use crate::geometry::Point3;
use crate::mesh::{Face, Mesh};

verus! {

pub type Tetrahedron = Mesh;

/// The faces of a tetrahedron, each with its corners in clockwise order
/// seen from outside.
pub open spec fn tetrahedron_faces() -> Seq<Face> {
    seq![
        Face { v0: 0, v1: 3, v2: 2 },
        Face { v0: 2, v1: 3, v2: 1 },
        Face { v0: 0, v1: 1, v2: 2 },
        Face { v0: 1, v1: 3, v2: 0 },
    ]
}

/// The mesh of the tetrahedron with the given corners.
pub fn create(v0: Point3, v1: Point3, v2: Point3, v3: Point3) -> (mesh: Tetrahedron)
    ensures
        mesh.spec_vertices() == seq![v0, v1, v2, v3],
        mesh.spec_faces() == tetrahedron_faces(),
        mesh.closed_under_lookup(),
{
    let mut mesh = Mesh::with_dims(4, 4);

    mesh.push_vertex(v0);
    mesh.push_vertex(v1);
    mesh.push_vertex(v2);
    mesh.push_vertex(v3);

    let face032 = Face::new(0, 3, 2);
    let face231 = Face::new(2, 3, 1);
    let face012 = Face::new(0, 1, 2);
    let face130 = Face::new(1, 3, 0);

    mesh.push_face(&face032);
    mesh.push_face(&face231);
    mesh.push_face(&face012);
    mesh.push_face(&face130);

    assert(mesh.spec_vertices() =~= seq![v0, v1, v2, v3]);
    assert(mesh.spec_faces() =~= tetrahedron_faces());
    mesh
}

} // verus!
