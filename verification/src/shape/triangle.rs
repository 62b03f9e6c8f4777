//! A single triangle as a mesh.

use vstd::prelude::*;
use crate::geometry::Point3;
use crate::mesh::{Face, Mesh};

verus! {

pub type Triangle = Mesh;

/// The mesh of one triangle with the given corners.
pub fn create(v0: Point3, v1: Point3, v2: Point3) -> (mesh: Triangle)
    ensures
        mesh.spec_vertices() == seq![v0, v1, v2],
        mesh.spec_faces() == seq![Face { v0: 0, v1: 1, v2: 2 }],
        mesh.closed_under_lookup(),
{
    let mut mesh = Mesh::with_dims(3, 1);

    mesh.push_vertex(v0);
    mesh.push_vertex(v1);
    mesh.push_vertex(v2);

    let face = Face::new(0, 1, 2);

    mesh.push_face(&face);

    assert(mesh.spec_vertices() =~= seq![v0, v1, v2]);
    assert(mesh.spec_faces() =~= seq![Face { v0: 0, v1: 1, v2: 2 }]);
    mesh
}

} // verus!
