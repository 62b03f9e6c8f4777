//! Indexed triangle meshes: a table of vertices and a table of faces that
//! refer to the vertices by index.

use vstd::prelude::*;
use crate::geometry::Point3;

verus! {

/// The index of a vertex in a vertex table.
pub type VertexIdx = usize;

/// The index of a face in a face table.
pub type FaceIdx = usize;

/// Calls `Vec::capacity`: the number of elements that the vector can hold
/// without allocating again. It depends on the allocator; all that is
/// said of it is that it is never below the vector's length.
#[verifier::external_body]
fn vec_capacity<T>(v: &Vec<T>) -> (c: usize)
    ensures
        c >= v@.len(),
{
    v.capacity()
}

/// The vertices of a mesh in the order in which they were added.
#[derive(Debug)]
pub struct VertexMap {
    data: Vec<Point3>,
}

impl View for VertexMap {
    type V = Seq<Point3>;

    closed spec fn view(&self) -> Seq<Point3> {
        self.data@
    }
}

impl VertexMap {
    /// An empty table with room for `n_verts` vertices.
    pub fn with_capacity(n_verts: usize) -> (m: VertexMap)
        ensures
            m@ == Seq::<Point3>::empty(),
    {
        VertexMap { data: Vec::with_capacity(n_verts) }
    }

    pub fn is_empty(&self) -> (r: bool)
        ensures
            r == (self@.len() == 0),
    {
        self.data.is_empty()
    }

    /// Adds a vertex at the end of the table.
    pub fn push(&mut self, vertex: Point3)
        ensures
            final(self)@ == old(self)@.push(vertex),
    {
        self.data.push(vertex);
    }

    /// The vertex with the given index, if there is one.
    pub fn lookup(&self, index: VertexIdx) -> (r: Option<&Point3>)
        ensures
            r.is_some() <==> index < self@.len(),
            r matches Some(v) ==> *v == self@[index as int],
    {
        if index < self.data.len() {
            Some(&self.data[index])
        } else {
            None
        }
    }

    pub fn len(&self) -> (n: usize)
        ensures
            n == self@.len(),
    {
        self.data.len()
    }

    /// The number of vertices that the table can hold without allocating
    /// again.
    pub fn capacity(&self) -> (c: usize)
        ensures
            c >= self@.len(),
    {
        vec_capacity(&self.data)
    }

    pub fn as_slice(&self) -> (s: &[Point3])
        ensures
            s@ == self@,
    {
        self.data.as_slice()
    }

    /// The vertex with the given index.
    pub fn index(&self, index: VertexIdx) -> (v: &Point3)
        requires
            index < self@.len(),
        ensures
            *v == self@[index as int],
    {
        &self.data[index]
    }
}

/// A triangle on the outside of a mesh: the indices of its three vertices
/// in clockwise order.
#[derive(Copy, Clone, Debug, Eq, PartialEq, Structural)]
pub struct Face {
    pub v0: VertexIdx,
    pub v1: VertexIdx,
    pub v2: VertexIdx,
}

impl Face {
    /// The vertex index at the given position of the face.
    pub open spec fn corner(self, position: int) -> VertexIdx {
        if position == 0 {
            self.v0
        } else if position == 1 {
            self.v1
        } else {
            self.v2
        }
    }

    /// Whether the three indices are indices of a table of `n` vertices.
    pub open spec fn within(self, n: int) -> bool {
        self.v0 < n && self.v1 < n && self.v2 < n
    }

    pub fn new(v0: VertexIdx, v1: VertexIdx, v2: VertexIdx) -> (f: Face)
        ensures
            f == (Face { v0, v1, v2 }),
    {
        Face { v0, v1, v2 }
    }

    /// The number of vertices of a face.
    pub fn len(&self) -> (n: usize)
        ensures
            n == 3,
    {
        3
    }

    /// The vertex index at the given position of the face.
    pub fn index(&self, index: usize) -> (v: &usize)
        requires
            index < 3,
        ensures
            *v == self.corner(index as int),
    {
        if index == 0 {
            &self.v0
        } else if index == 1 {
            &self.v1
        } else {
            &self.v2
        }
    }
}

/// The faces of a mesh in the order in which they were added.
#[derive(Debug)]
pub struct FaceMap {
    data: Vec<Face>,
}

impl View for FaceMap {
    type V = Seq<Face>;

    closed spec fn view(&self) -> Seq<Face> {
        self.data@
    }
}

impl FaceMap {
    /// An empty table with room for `n_faces` faces.
    pub fn with_capacity(n_faces: usize) -> (m: FaceMap)
        ensures
            m@ == Seq::<Face>::empty(),
    {
        FaceMap { data: Vec::with_capacity(n_faces) }
    }

    pub fn is_empty(&self) -> (r: bool)
        ensures
            r == (self@.len() == 0),
    {
        self.data.is_empty()
    }

    /// Adds a face at the end of the table.
    pub fn push(&mut self, face: &Face)
        ensures
            final(self)@ == old(self)@.push(*face),
    {
        self.data.push(*face);
    }

    /// The face with the given index, if there is one.
    pub fn lookup(&self, index: FaceIdx) -> (r: Option<&Face>)
        ensures
            r.is_some() <==> index < self@.len(),
            r matches Some(f) ==> *f == self@[index as int],
    {
        if index < self.data.len() {
            Some(&self.data[index])
        } else {
            None
        }
    }

    pub fn len(&self) -> (n: usize)
        ensures
            n == self@.len(),
    {
        self.data.len()
    }

    /// The number of faces that the table can hold without allocating
    /// again.
    pub fn capacity(&self) -> (c: usize)
        ensures
            c >= self@.len(),
    {
        vec_capacity(&self.data)
    }

    pub fn as_slice(&self) -> (s: &[Face])
        ensures
            s@ == self@,
    {
        self.data.as_slice()
    }

    /// The face with the given index.
    pub fn index(&self, index: FaceIdx) -> (f: &Face)
        requires
            index < self@.len(),
        ensures
            *f == self@[index as int],
    {
        &self.data[index]
    }
}

/// A static triangle mesh.
#[derive(Debug)]
pub struct Mesh {
    vertex_table: VertexMap,
    face_table: FaceMap,
}

impl Mesh {
    /// The vertices of the mesh.
    pub closed spec fn spec_vertices(&self) -> Seq<Point3> {
        self.vertex_table@
    }

    /// The faces of the mesh.
    pub closed spec fn spec_faces(&self) -> Seq<Face> {
        self.face_table@
    }

    /// Whether every face refers to vertices of the mesh.
    pub open spec fn closed_under_lookup(&self) -> bool {
        forall|i: int|
            0 <= i < self.spec_faces().len() ==> (#[trigger] self.spec_faces()[i]).within(
                self.spec_vertices().len() as int,
            )
    }

    /// An empty mesh with room for `n_verts` vertices and `n_faces` faces.
    pub fn with_dims(n_verts: usize, n_faces: usize) -> (m: Mesh)
        ensures
            m.spec_vertices() == Seq::<Point3>::empty(),
            m.spec_faces() == Seq::<Face>::empty(),
    {
        Mesh { vertex_table: VertexMap::with_capacity(n_verts), face_table: FaceMap::with_capacity(n_faces) }
    }

    pub fn vertex_count(&self) -> (n: usize)
        ensures
            n == self.spec_vertices().len(),
    {
        self.vertex_table.len()
    }

    pub fn face_count(&self) -> (n: usize)
        ensures
            n == self.spec_faces().len(),
    {
        self.face_table.len()
    }

    /// Adds a vertex; its index is the number of vertices added before.
    pub fn push_vertex(&mut self, vertex: Point3)
        ensures
            final(self).spec_vertices() == old(self).spec_vertices().push(vertex),
            final(self).spec_faces() == old(self).spec_faces(),
    {
        self.vertex_table.push(vertex);
    }

    /// Adds a face.
    pub fn push_face(&mut self, face: &Face)
        ensures
            final(self).spec_vertices() == old(self).spec_vertices(),
            final(self).spec_faces() == old(self).spec_faces().push(*face),
    {
        self.face_table.push(face);
    }

    pub fn vertices(&self) -> (s: &[Point3])
        ensures
            s@ == self.spec_vertices(),
    {
        self.vertex_table.as_slice()
    }

    pub fn faces(&self) -> (s: &[Face])
        ensures
            s@ == self.spec_faces(),
    {
        self.face_table.as_slice()
    }

    /// The positions of the three vertices of the face with the given
    /// index, or nothing when there is no such face or it refers to a vertex
    /// that the mesh does not have.
    pub fn corners(&self, face: FaceIdx) -> (r: Option<(Point3, Point3, Point3)>)
        ensures
            r.is_some() <==> face < self.spec_faces().len() && self.spec_faces()[face as int].within(
                self.spec_vertices().len() as int,
            ),
            r matches Some(c) ==> {
                &&& c.0 == self.spec_vertices()[self.spec_faces()[face as int].v0 as int]
                &&& c.1 == self.spec_vertices()[self.spec_faces()[face as int].v1 as int]
                &&& c.2 == self.spec_vertices()[self.spec_faces()[face as int].v2 as int]
            },
    {
        let f = match self.face_table.lookup(face) {
            Some(f) => *f,
            None => {
                return None;
            },
        };
        let n = self.vertex_table.len();
        if f.v0 < n && f.v1 < n && f.v2 < n {
            Some((*self.vertex_table.index(f.v0), *self.vertex_table.index(f.v1), *self.vertex_table.index(f.v2)))
        } else {
            None
        }
    }
}

} // verus!
