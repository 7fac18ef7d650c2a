use vstd::prelude::*;

verus! {

/// A corner of a mesh, in world units.
#[derive(Clone, Copy, Debug)]
pub struct Vertex {
    pub position: (i64, i64, i64),
}

/// A direction attached to a mesh.
#[derive(Clone, Copy, Debug)]
pub struct Normal {
    pub normal: (i64, i64, i64),
}

/// The abstract content of an [`Object`]: its three tables.
pub ghost struct Mesh {
    pub vertices: Seq<Vertex>,
    pub normals: Seq<Normal>,
    pub indices: Seq<u16>,
}

/// A triangle mesh: corners, normals, and index triples into the corners.
#[derive(Clone, Debug)]
pub struct Object {
    pub vertices: Vec<Vertex>,
    pub normals: Vec<Normal>,
    pub indices: Vec<u16>,
}

impl View for Object {
    type V = Mesh;

    open spec fn view(&self) -> Mesh {
        Mesh { vertices: self.vertices@, normals: self.normals@, indices: self.indices@ }
    }
}

impl Object {
    pub fn new(vertices: Vec<Vertex>, normals: Vec<Normal>, indices: Vec<u16>) -> (r: Object)
        ensures
            r@ == (Mesh { vertices: vertices@, normals: normals@, indices: indices@ }),
    {
        Object { vertices, normals, indices }
    }

    /// An independent copy of this mesh.
    pub fn duplicate(&self) -> (r: Object)
        ensures
            r@ == self@,
    {
        let mut vertices: Vec<Vertex> = Vec::new();
        let mut i: usize = 0;
        while i < self.vertices.len()
            invariant
                i <= self.vertices@.len(),
                vertices@ == self.vertices@.take(i as int),
            decreases self.vertices@.len() - i,
        {
            vertices.push(self.vertices[i]);
            i = i + 1;
            assert(vertices@ =~= self.vertices@.take(i as int));
        }
        let mut normals: Vec<Normal> = Vec::new();
        let mut j: usize = 0;
        while j < self.normals.len()
            invariant
                j <= self.normals@.len(),
                normals@ == self.normals@.take(j as int),
            decreases self.normals@.len() - j,
        {
            normals.push(self.normals[j]);
            j = j + 1;
            assert(normals@ =~= self.normals@.take(j as int));
        }
        let mut indices: Vec<u16> = Vec::new();
        let mut k: usize = 0;
        while k < self.indices.len()
            invariant
                k <= self.indices@.len(),
                indices@ == self.indices@.take(k as int),
            decreases self.indices@.len() - k,
        {
            indices.push(self.indices[k]);
            k = k + 1;
            assert(indices@ =~= self.indices@.take(k as int));
        }
        assert(vertices@ =~= self.vertices@);
        assert(normals@ =~= self.normals@);
        assert(indices@ =~= self.indices@);
        Object { vertices, normals, indices }
    }
}

} // verus!
