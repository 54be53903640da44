//! Meshes, models and the palette that assigns each mesh its identifier.
use vstd::prelude::*;
use crate::vertex::Vertex;

verus! {

/// Identifier of a mesh in a palette.
pub type MeshID = u64;

/// What a mesh holds: its vertices and its triangle-list indices.
pub ghost struct MeshData {
    pub vertices: Seq<Vertex>,
    pub indices: Seq<u32>,
}

/// A triangle mesh: vertices and 32-bit indices, three per face.
#[derive(Debug)]
pub struct Mesh {
    pub vertices_: Vec<Vertex>,
    pub indices_: Vec<u32>,
}

impl View for Mesh {
    type V = MeshData;

    open spec fn view(&self) -> MeshData {
        MeshData { vertices: self.vertices_@, indices: self.indices_@ }
    }
}

/// A copy of `v`, element by element.
pub fn copy_vertices(v: &Vec<Vertex>) -> (r: Vec<Vertex>)
    ensures
        r@ == v@,
{
    let mut r: Vec<Vertex> = Vec::new();
    let mut i: usize = 0;
    while i < v.len()
        invariant
            i <= v@.len(),
            r@ == v@.subrange(0, i as int),
        decreases v@.len() - i,
    {
        r.push(v[i]);
        i = i + 1;
        assert(r@ =~= v@.subrange(0, i as int));
    }
    assert(v@.subrange(0, i as int) =~= v@);
    r
}

/// A copy of `v`, element by element.
pub fn copy_indices(v: &Vec<u32>) -> (r: Vec<u32>)
    ensures
        r@ == v@,
{
    let mut r: Vec<u32> = Vec::new();
    let mut i: usize = 0;
    while i < v.len()
        invariant
            i <= v@.len(),
            r@ == v@.subrange(0, i as int),
        decreases v@.len() - i,
    {
        r.push(v[i]);
        i = i + 1;
        assert(r@ =~= v@.subrange(0, i as int));
    }
    assert(v@.subrange(0, i as int) =~= v@);
    r
}

impl Mesh {
    /// A mesh of the given vertices and indices.
    pub fn new(vertices: Vec<Vertex>, indices: Vec<u32>) -> (r: Mesh)
        ensures
            r.vertices_@ == vertices@,
            r.indices_@ == indices@,
    {
        Mesh { vertices_: vertices, indices_: indices }
    }

    /// A copy of this mesh.
    pub fn duplicate(&self) -> (r: Mesh)
        ensures
            r@ == self@,
    {
        Mesh { vertices_: copy_vertices(&self.vertices_), indices_: copy_indices(&self.indices_) }
    }
}

/// The meshes read from one model file.
pub struct Model {
    pub meshes_: Vec<Mesh>,
}

/// The registry of loadable meshes. Each mesh gets the next identifier, starting at 0; an
/// identifier is never reused and entries are never removed, so the identifier of a mesh is
/// its position.
pub struct Palette {
    meshes_: Vec<Mesh>,
}

impl View for Palette {
    type V = Seq<MeshData>;

    closed spec fn view(&self) -> Seq<MeshData> {
        self.meshes_@.map_values(|m: Mesh| m@)
    }
}

impl Palette {
    /// An empty palette.
    pub fn new() -> (r: Palette)
        ensures
            r@ == Seq::<MeshData>::empty(),
    {
        let r = Palette { meshes_: Vec::new() };
        assert(r@ =~= Seq::<MeshData>::empty());
        r
    }

    /// Stores a copy of `mesh` and returns its identifier: the number of meshes stored before.
    pub fn load_mesh(&mut self, mesh: &Mesh) -> (id: MeshID)
        ensures
            id == old(self)@.len(),
            final(self)@ == old(self)@.push(mesh@),
    {
        let id = self.meshes_.len() as u64;
        self.meshes_.push(mesh.duplicate());
        assert(self@ =~= old(self)@.push(mesh@));
        id
    }

    /// The number of meshes stored.
    pub fn len(&self) -> (r: usize)
        ensures
            r == self@.len(),
    {
        self.meshes_.len()
    }

    /// The mesh with identifier `id`.
    pub fn get_mesh(&self, id: MeshID) -> (r: Option<&Mesh>)
        ensures
            r.is_some() <==> id < self@.len(),
            r.is_some() ==> r.unwrap()@ == self@[id as int],
    {
        if id < self.meshes_.len() as u64 {
            Some(&self.meshes_[id as usize])
        } else {
            None
        }
    }
}

/// Identifiers handed out by successive `load_mesh` calls on one palette strictly increase, so
/// none is handed out twice, and each names the mesh stored under it.
pub proof fn lemma_palette_ids_increase(
    p0: Seq<MeshData>,
    m1: MeshData,
    id1: MeshID,
    p1: Seq<MeshData>,
    m2: MeshData,
    id2: MeshID,
    p2: Seq<MeshData>,
)
    requires
        id1 == p0.len(),
        p1 == p0.push(m1),
        id2 == p1.len(),
        p2 == p1.push(m2),
    ensures
        id1 < id2,
        p2[id1 as int] == m1,
        p2[id2 as int] == m2,
{
}

} // verus!
