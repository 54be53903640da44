//! Batches the geometry of every loaded mesh into one vertex array and one index array, records
//! where each mesh lies in them, and stages both for upload when they have changed.
use vstd::prelude::*;
use std::collections::HashMap;
use crate::bytes::{push_words, words_bytes, lemma_words_bytes_len};
use crate::error::EngineError;
use crate::mesh::{Mesh, MeshData, MeshID, Palette};
use crate::vertex::{Vertex, VERTEX_SIZE, vertices_bytes, vertices_to_bytes, lemma_vertices_bytes_len};

verus! {

broadcast use vstd::std_specs::hash::group_hash_axioms;

/// Default capacity of the vertex array.
pub const MAX_VERTICES: usize = 10000;

/// Default capacity of the index array.
pub const MAX_INDICES: usize = 1000000;

/// Where a mesh lies in the batched arrays, in elements.
#[derive(Clone, Copy, Debug, PartialEq, Eq, Structural)]
pub struct MeshLocation {
    pub vertex_offset_: usize,
    pub index_offset_: usize,
    pub vertex_count_: usize,
    pub index_count_: usize,
}

/// A copy from the start of a staging buffer to the start of a device buffer.
#[derive(Clone, Copy, Debug, PartialEq, Eq, Structural)]
pub struct BufferCopy {
    pub src_offset: u64,
    pub dst_offset: u64,
    pub size: u64,
}

/// What one upload writes: the staging images of both arrays and the two copies into the
/// device-local buffers.
pub struct GeometryUpload {
    pub vertex_bytes: Vec<u8>,
    pub index_bytes: Vec<u8>,
    pub vertex_copy: BufferCopy,
    pub index_copy: BufferCopy,
}

/// The state of a geometry manager.
pub ghost struct GeometryModel {
    pub vertices: Seq<Vertex>,
    pub indices: Seq<u32>,
    pub locations: Map<u64, MeshLocation>,
    pub next_id: u64,
    pub dirty: bool,
    pub max_vertices: nat,
    pub max_indices: nat,
}

pub struct GeometryManager {
    vertices_: Vec<Vertex>,
    indices_: Vec<u32>,
    mesh_locations_: HashMap<u64, MeshLocation>,
    curr_mesh_id_: u64,
    should_load_: bool,
    max_vertices_: usize,
    max_indices_: usize,
}

impl View for GeometryManager {
    type V = GeometryModel;

    closed spec fn view(&self) -> GeometryModel {
        GeometryModel {
            vertices: self.vertices_@,
            indices: self.indices_@,
            locations: self.mesh_locations_@,
            next_id: self.curr_mesh_id_,
            dirty: self.should_load_,
            max_vertices: self.max_vertices_ as nat,
            max_indices: self.max_indices_ as nat,
        }
    }
}

/// Every recorded location lies inside the arrays.
pub open spec fn locations_within(
    locations: Map<u64, MeshLocation>,
    n_vertices: nat,
    n_indices: nat,
) -> bool {
    forall|id: u64|
        #[trigger] locations.contains_key(id) ==> {
            &&& locations[id].vertex_offset_ + locations[id].vertex_count_ <= n_vertices
            &&& locations[id].index_offset_ + locations[id].index_count_ <= n_indices
        }
}

impl GeometryModel {
    /// The arrays stay within capacity, the capacities within what a draw call can address,
    /// every location inside the arrays, and every identifier in use below the next one handed
    /// out.
    pub open spec fn wf(self) -> bool {
        &&& self.vertices.len() <= self.max_vertices
        &&& self.indices.len() <= self.max_indices
        &&& self.max_vertices <= i32::MAX
        &&& self.max_indices <= u32::MAX
        &&& locations_within(self.locations, self.vertices.len(), self.indices.len())
        &&& forall|k: u64| #[trigger] self.locations.contains_key(k) ==> k < self.next_id
    }

    /// The state with the next identifier raised to at least `n`.
    pub open spec fn raised_to(self, n: u64) -> GeometryModel {
        GeometryModel { next_id: if self.next_id >= n { self.next_id } else { n }, ..self }
    }

    /// Whether `mesh` fits in what is left of both arrays.
    pub open spec fn fits(self, mesh: MeshData) -> bool {
        &&& self.vertices.len() + mesh.vertices.len() <= self.max_vertices
        &&& self.indices.len() + mesh.indices.len() <= self.max_indices
    }

    /// The location `mesh` gets when it is appended now.
    pub open spec fn next_location(self, mesh: MeshData) -> MeshLocation {
        MeshLocation {
            vertex_offset_: self.vertices.len() as usize,
            index_offset_: self.indices.len() as usize,
            vertex_count_: mesh.vertices.len() as usize,
            index_count_: mesh.indices.len() as usize,
        }
    }

    /// The state after `mesh` is appended under identifier `id`.
    pub open spec fn append(self, id: u64, mesh: MeshData) -> GeometryModel {
        GeometryModel {
            vertices: self.vertices + mesh.vertices,
            indices: self.indices + mesh.indices,
            locations: self.locations.insert(id, self.next_location(mesh)),
            dirty: true,
            ..self
        }
    }

    /// The state after every mesh of `meshes` is appended in order, mesh `i` under identifier
    /// `i`.
    pub open spec fn append_all(self, meshes: Seq<MeshData>) -> GeometryModel
        decreases meshes.len(),
    {
        if meshes.len() == 0 {
            GeometryModel { dirty: true, ..self }
        } else {
            self.append_all(meshes.drop_last()).append(
                (meshes.len() - 1) as u64,
                meshes.last(),
            )
        }
    }
}

/// All vertices of `meshes`, one mesh after the other.
pub open spec fn all_vertices(meshes: Seq<MeshData>) -> Seq<Vertex>
    decreases meshes.len(),
{
    if meshes.len() == 0 {
        Seq::empty()
    } else {
        all_vertices(meshes.drop_last()) + meshes.last().vertices
    }
}

/// All indices of `meshes`, one mesh after the other.
pub open spec fn all_indices(meshes: Seq<MeshData>) -> Seq<u32>
    decreases meshes.len(),
{
    if meshes.len() == 0 {
        Seq::empty()
    } else {
        all_indices(meshes.drop_last()) + meshes.last().indices
    }
}

pub proof fn lemma_all_prefix_len(meshes: Seq<MeshData>, i: int)
    requires
        0 <= i <= meshes.len(),
    ensures
        all_vertices(meshes.take(i)).len() <= all_vertices(meshes).len(),
        all_indices(meshes.take(i)).len() <= all_indices(meshes).len(),
    decreases meshes.len(),
{
    if i < meshes.len() {
        assert(meshes.take(i) =~= meshes.drop_last().take(i));
        lemma_all_prefix_len(meshes.drop_last(), i);
    } else {
        assert(meshes.take(i) =~= meshes);
    }
}

pub proof fn lemma_append_all(g: GeometryModel, meshes: Seq<MeshData>)
    ensures
        g.append_all(meshes).vertices == g.vertices + all_vertices(meshes),
        g.append_all(meshes).indices == g.indices + all_indices(meshes),
        g.append_all(meshes).next_id == g.next_id,
        g.append_all(meshes).max_vertices == g.max_vertices,
        g.append_all(meshes).max_indices == g.max_indices,
        g.append_all(meshes).dirty,
    decreases meshes.len(),
{
    if meshes.len() == 0 {
        assert(g.vertices + all_vertices(meshes) =~= g.vertices);
        assert(g.indices + all_indices(meshes) =~= g.indices);
    } else {
        lemma_append_all(g, meshes.drop_last());
        assert(g.vertices + all_vertices(meshes) =~= g.vertices + all_vertices(meshes.drop_last())
            + meshes.last().vertices);
        assert(g.indices + all_indices(meshes) =~= g.indices + all_indices(meshes.drop_last())
            + meshes.last().indices);
    }
}

pub proof fn lemma_append_wf(g: GeometryModel, id: u64, mesh: MeshData)
    requires
        g.wf(),
        g.fits(mesh),
        id < g.next_id,
    ensures
        g.append(id, mesh).wf(),
{
    let h = g.append(id, mesh);
    assert forall|k: u64| #[trigger] h.locations.contains_key(k) implies {
        &&& h.locations[k].vertex_offset_ + h.locations[k].vertex_count_ <= h.vertices.len()
        &&& h.locations[k].index_offset_ + h.locations[k].index_count_ <= h.indices.len()
        &&& k < h.next_id
    } by {
        if k != id {
            assert(g.locations.contains_key(k));
        }
    }
}

impl GeometryManager {
    /// An empty manager whose arrays hold at most `max_vertices` vertices and `max_indices`
    /// indices.
    pub fn new(max_vertices: usize, max_indices: usize) -> (r: GeometryManager)
        requires
            max_vertices <= i32::MAX,
            max_indices <= u32::MAX,
        ensures
            r@.wf(),
            r@.vertices.len() == 0,
            r@.indices.len() == 0,
            r@.locations == Map::<u64, MeshLocation>::empty(),
            r@.next_id == 0,
            !r@.dirty,
            r@.max_vertices == max_vertices,
            r@.max_indices == max_indices,
    {
        let r = GeometryManager {
            vertices_: Vec::new(),
            indices_: Vec::new(),
            mesh_locations_: HashMap::new(),
            curr_mesh_id_: 0,
            should_load_: false,
            max_vertices_: max_vertices,
            max_indices_: max_indices,
        };
        assert(r@.locations =~= Map::<u64, MeshLocation>::empty());
        r
    }

    fn append_mesh(&mut self, id: u64, mesh: &Mesh)
        requires
            old(self)@.wf(),
            old(self)@.fits(mesh@),
            id < old(self)@.next_id,
        ensures
            final(self)@ == old(self)@.append(id, mesh@),
            final(self)@.wf(),
    {
        let location = MeshLocation {
            vertex_offset_: self.vertices_.len(),
            index_offset_: self.indices_.len(),
            vertex_count_: mesh.vertices_.len(),
            index_count_: mesh.indices_.len(),
        };
        self.mesh_locations_.insert(id, location);
        let mut i: usize = 0;
        while i < mesh.vertices_.len()
            invariant
                i <= mesh.vertices_@.len(),
                self.vertices_@ == old(self).vertices_@ + mesh.vertices_@.subrange(0, i as int),
                self.indices_@ == old(self).indices_@,
                self.mesh_locations_@ == old(self).mesh_locations_@.insert(id, location),
                self.curr_mesh_id_ == old(self).curr_mesh_id_,
                self.max_vertices_ == old(self).max_vertices_,
                self.max_indices_ == old(self).max_indices_,
            decreases mesh.vertices_@.len() - i,
        {
            self.vertices_.push(mesh.vertices_[i]);
            i = i + 1;
            assert(self.vertices_@ =~= old(self).vertices_@ + mesh.vertices_@.subrange(0, i as int));
        }
        assert(mesh.vertices_@.subrange(0, i as int) =~= mesh.vertices_@);
        let mut j: usize = 0;
        while j < mesh.indices_.len()
            invariant
                j <= mesh.indices_@.len(),
                self.indices_@ == old(self).indices_@ + mesh.indices_@.subrange(0, j as int),
                self.vertices_@ == old(self).vertices_@ + mesh.vertices_@,
                self.mesh_locations_@ == old(self).mesh_locations_@.insert(id, location),
                self.curr_mesh_id_ == old(self).curr_mesh_id_,
                self.max_vertices_ == old(self).max_vertices_,
                self.max_indices_ == old(self).max_indices_,
            decreases mesh.indices_@.len() - j,
        {
            self.indices_.push(mesh.indices_[j]);
            j = j + 1;
            assert(self.indices_@ =~= old(self).indices_@ + mesh.indices_@.subrange(0, j as int));
        }
        self.should_load_ = true;
        assert(mesh.vertices_@.subrange(0, i as int) =~= mesh.vertices_@);
        assert(mesh.indices_@.subrange(0, j as int) =~= mesh.indices_@);
        assert(self@ =~= old(self)@.append(id, mesh@));
        proof {
            lemma_append_wf(old(self)@, id, mesh@);
        }
    }

    /// Appends `mesh` under the next identifier of this manager and returns that identifier.
    /// Refused, with nothing changed, when the mesh does not fit in what is left of either
    /// array or when no identifier is left.
    pub fn load_mesh(&mut self, mesh: &Mesh) -> (r: Result<u64, EngineError>)
        requires
            old(self)@.wf(),
        ensures
            final(self)@.wf(),
            r.is_ok() <==> old(self)@.fits(mesh@) && old(self)@.next_id < u64::MAX,
            r.is_err() ==> r == Err::<u64, EngineError>(EngineError::CapacityExceeded)
                && final(self)@ == old(self)@,
            r.is_ok() ==> loads_mesh(old(self)@, mesh@, r.unwrap(), final(self)@),
            r.is_ok() ==> !old(self)@.locations.contains_key(r.unwrap()),
            forall|k: u64|
                #[trigger] old(self)@.locations.contains_key(k) ==> final(self)@.locations.contains_key(
                    k,
                ) && final(self)@.locations[k] == old(self)@.locations[k],
    {
        if self.curr_mesh_id_ == u64::MAX || mesh.vertices_.len() > self.max_vertices_
            - self.vertices_.len() || mesh.indices_.len() > self.max_indices_ - self.indices_.len() {
            return Err(EngineError::CapacityExceeded);
        }
        let mesh_id = self.curr_mesh_id_;
        self.curr_mesh_id_ = mesh_id + 1;
        self.append_mesh(mesh_id, mesh);
        assert(self@ =~= (GeometryModel { next_id: (mesh_id + 1) as u64, ..old(self)@.append(mesh_id, mesh@) }));
        Ok(mesh_id)
    }

    /// Appends every mesh of `palette` in identifier order, each under its palette identifier
    /// (replacing any location recorded under that identifier before), and raises the next
    /// identifier this manager hands out past every palette identifier, so that `load_mesh`
    /// never reuses one. Refused, with nothing changed, when the palette's meshes together do
    /// not fit in what is left of either array.
    pub fn load_palette(&mut self, palette: &Palette) -> (r: Result<(), EngineError>)
        requires
            old(self)@.wf(),
        ensures
            final(self)@.wf(),
            r.is_ok() <==> old(self)@.vertices.len() + all_vertices(palette@).len()
                <= old(self)@.max_vertices && old(self)@.indices.len() + all_indices(
                palette@,
            ).len() <= old(self)@.max_indices,
            r.is_err() ==> r == Err::<(), EngineError>(EngineError::CapacityExceeded)
                && final(self)@ == old(self)@,
            r.is_ok() ==> final(self)@ == old(self)@.raised_to(palette@.len() as u64).append_all(
                palette@,
            ),
    {
        let n = palette.len();
        let ghost meshes = palette@;
        let mut total_vertices: usize = 0;
        let mut total_indices: usize = 0;
        let room_vertices = self.max_vertices_ - self.vertices_.len();
        let room_indices = self.max_indices_ - self.indices_.len();
        let mut i: usize = 0;
        while i < n
            invariant
                n == meshes.len(),
                meshes == palette@,
                i <= n,
                total_vertices == all_vertices(meshes.take(i as int)).len(),
                total_indices == all_indices(meshes.take(i as int)).len(),
                total_vertices <= room_vertices,
                total_indices <= room_indices,
                self@ == old(self)@,
                old(self)@.wf(),
                room_vertices + old(self)@.vertices.len() == old(self)@.max_vertices,
                room_indices + old(self)@.indices.len() == old(self)@.max_indices,
            decreases n - i,
        {
            let mesh = palette.get_mesh(i as u64).unwrap();
            proof {
                assert(meshes.take(i as int + 1).drop_last() =~= meshes.take(i as int));
                assert(meshes.take(i as int + 1).last() == meshes[i as int]);
            }
            if mesh.vertices_.len() > room_vertices - total_vertices || mesh.indices_.len()
                > room_indices - total_indices {
                proof {
                    lemma_all_prefix_len(meshes, i as int + 1);
                }
                return Err(EngineError::CapacityExceeded);
            }
            total_vertices = total_vertices + mesh.vertices_.len();
            total_indices = total_indices + mesh.indices_.len();
            i = i + 1;
        }
        assert(meshes.take(n as int) =~= meshes);
        if self.curr_mesh_id_ < n as u64 {
            self.curr_mesh_id_ = n as u64;
        }
        let ghost start = self@;
        assert(start == old(self)@.raised_to(n as u64));
        let mut k: usize = 0;
        while k < n
            invariant
                n == meshes.len(),
                meshes == palette@,
                k <= n,
                start.wf(),
                n <= start.next_id,
                start.vertices.len() + all_vertices(meshes).len() <= start.max_vertices,
                start.indices.len() + all_indices(meshes).len() <= start.max_indices,
                self@.wf(),
                k == 0 ==> self@ == start,
                k > 0 ==> self@ == start.append_all(meshes.take(k as int)),
            decreases n - k,
        {
            let mesh = palette.get_mesh(k as u64).unwrap();
            proof {
                assert(meshes.take(k as int + 1).drop_last() =~= meshes.take(k as int));
                lemma_append_all(start, meshes.take(k as int));
                lemma_append_all(start, meshes.take(k as int + 1));
                lemma_all_prefix_len(meshes, k as int + 1);
                if k == 0 {
                    assert(meshes.take(0) =~= Seq::<MeshData>::empty());
                }
            }
            self.append_mesh(k as u64, mesh);
            k = k + 1;
        }
        self.should_load_ = true;
        proof {
            if n == 0 {
                assert(meshes =~= Seq::<MeshData>::empty());
                assert(self@ =~= start.append_all(meshes));
            } else {
                assert(meshes.take(n as int) =~= meshes);
            }
        }
        Ok(())
    }

    /// Where the mesh `mesh_id` lies in the batched arrays.
    pub fn get_mesh_location(&self, mesh_id: u64) -> (r: Result<MeshLocation, EngineError>)
        ensures
            r.is_ok() <==> self@.locations.contains_key(mesh_id),
            r.is_ok() ==> r.unwrap() == self@.locations[mesh_id],
            r.is_err() ==> r == Err::<MeshLocation, EngineError>(EngineError::NotFound),
    {
        match self.mesh_locations_.get(&mesh_id) {
            Some(location) => Ok(*location),
            None => Err(EngineError::NotFound),
        }
    }

    /// The number of vertices in the batched vertex array.
    pub fn vertex_count(&self) -> (r: usize)
        ensures
            r == self@.vertices.len(),
    {
        self.vertices_.len()
    }

    /// The number of indices in the batched index array.
    pub fn index_count(&self) -> (r: usize)
        ensures
            r == self@.indices.len(),
    {
        self.indices_.len()
    }

    /// Whether the arrays changed since the last upload.
    pub fn is_dirty(&self) -> (r: bool)
        ensures
            r == self@.dirty,
    {
        self.should_load_
    }

    /// The byte image of the whole vertex array, as it is written to the staging buffer.
    pub fn stage_vertices(&self) -> (r: Vec<u8>)
        ensures
            r@ == vertices_bytes(self@.vertices),
    {
        vertices_to_bytes(&self.vertices_)
    }

    /// The byte image of the whole index array, as it is written to the staging buffer.
    pub fn stage_indices(&self) -> (r: Vec<u8>)
        ensures
            r@ == words_bytes(self@.indices),
    {
        let mut r: Vec<u8> = Vec::new();
        push_words(&mut r, self.indices_.as_slice());
        r
    }

    /// Both staging images, and the copies of their full length into the device buffers.
    pub fn load_geometry_to_device(&self) -> (r: GeometryUpload)
        requires
            self@.wf(),
        ensures
            r.vertex_bytes@ == vertices_bytes(self@.vertices),
            r.index_bytes@ == words_bytes(self@.indices),
            r.vertex_bytes@.len() == VERTEX_SIZE * self@.vertices.len(),
            r.index_bytes@.len() == 4 * self@.indices.len(),
            r.vertex_copy == (BufferCopy {
                src_offset: 0,
                dst_offset: 0,
                size: (VERTEX_SIZE * self@.vertices.len()) as u64,
            }),
            r.index_copy == (BufferCopy {
                src_offset: 0,
                dst_offset: 0,
                size: (4 * self@.indices.len()) as u64,
            }),
    {
        proof {
            lemma_vertices_bytes_len(self@.vertices);
            lemma_words_bytes_len(self@.indices);
        }
        let vertex_size = (VERTEX_SIZE as u64) * (self.vertices_.len() as u64);
        let index_size = 4 * (self.indices_.len() as u64);
        GeometryUpload {
            vertex_bytes: self.stage_vertices(),
            index_bytes: self.stage_indices(),
            vertex_copy: BufferCopy { src_offset: 0, dst_offset: 0, size: vertex_size },
            index_copy: BufferCopy { src_offset: 0, dst_offset: 0, size: index_size },
        }
    }

    /// When the arrays changed since the last upload: the upload to perform, after which they
    /// count as uploaded. Otherwise nothing.
    pub fn update(&mut self) -> (r: Option<GeometryUpload>)
        requires
            old(self)@.wf(),
        ensures
            final(self)@ == (GeometryModel { dirty: false, ..old(self)@ }),
            r.is_some() <==> old(self)@.dirty,
            r.is_some() ==> r.unwrap().vertex_bytes@ == vertices_bytes(old(self)@.vertices)
                && r.unwrap().index_bytes@ == words_bytes(old(self)@.indices)
                && r.unwrap().vertex_copy.size == VERTEX_SIZE * old(self)@.vertices.len()
                && r.unwrap().index_copy.size == 4 * old(self)@.indices.len(),
    {
        if self.should_load_ {
            let upload = self.load_geometry_to_device();
            self.should_load_ = false;
            Some(upload)
        } else {
            None
        }
    }
}

/// `after` is the state of a manager in state `before` once `load_mesh(mesh)` has returned `id`.
pub open spec fn loads_mesh(before: GeometryModel, mesh: MeshData, id: u64, after: GeometryModel) -> bool {
    &&& id == before.next_id
    &&& id < u64::MAX
    &&& before.fits(mesh)
    &&& !before.locations.contains_key(id)
    &&& after == (GeometryModel { next_id: (id + 1) as u64, ..before.append(id, mesh) })
}

/// Two meshes loaded one after the other lie back to back: the second starts where the first
/// ends, in the vertex array and in the index array, and each array grows by exactly the
/// elements of the two meshes.
pub proof fn lemma_batching(
    g0: GeometryModel,
    m1: MeshData,
    id1: u64,
    g1: GeometryModel,
    m2: MeshData,
    id2: u64,
    g2: GeometryModel,
)
    requires
        g0.wf(),
        loads_mesh(g0, m1, id1, g1),
        loads_mesh(g1, m2, id2, g2),
    ensures
        g2.locations.contains_key(id1),
        g2.locations.contains_key(id2),
        g2.locations[id2].vertex_offset_ == g2.locations[id1].vertex_offset_
            + g2.locations[id1].vertex_count_,
        g2.locations[id2].index_offset_ == g2.locations[id1].index_offset_
            + g2.locations[id1].index_count_,
        g2.locations[id1] == g1.locations[id1],
        g2.vertices == g0.vertices + m1.vertices + m2.vertices,
        g2.indices == g0.indices + m1.indices + m2.indices,
        g2.vertices.len() == g0.vertices.len() + m1.vertices.len() + m2.vertices.len(),
        g2.indices.len() == g0.indices.len() + m1.indices.len() + m2.indices.len(),
{
    assert(id1 != id2);
}

proof fn lemma_all_prefix(meshes: Seq<MeshData>, j: int)
    requires
        0 <= j <= meshes.len(),
    ensures
        all_vertices(meshes.take(j)).len() <= all_vertices(meshes).len(),
        all_indices(meshes.take(j)).len() <= all_indices(meshes).len(),
        all_vertices(meshes).take(all_vertices(meshes.take(j)).len() as int) == all_vertices(
            meshes.take(j),
        ),
        all_indices(meshes).take(all_indices(meshes.take(j)).len() as int) == all_indices(
            meshes.take(j),
        ),
    decreases meshes.len(),
{
    if j < meshes.len() {
        assert(meshes.take(j) =~= meshes.drop_last().take(j));
        lemma_all_prefix(meshes.drop_last(), j);
        let pv = all_vertices(meshes.take(j));
        let pi = all_indices(meshes.take(j));
        assert(all_vertices(meshes).take(pv.len() as int) =~= all_vertices(meshes.drop_last()).take(
            pv.len() as int,
        ));
        assert(all_indices(meshes).take(pi.len() as int) =~= all_indices(meshes.drop_last()).take(
            pi.len() as int,
        ));
    } else {
        assert(meshes.take(j) =~= meshes);
        assert(all_vertices(meshes).take(all_vertices(meshes).len() as int) =~= all_vertices(meshes));
        assert(all_indices(meshes).take(all_indices(meshes).len() as int) =~= all_indices(meshes));
    }
}

proof fn lemma_append_all_location(g: GeometryModel, meshes: Seq<MeshData>, i: int)
    requires
        0 <= i < meshes.len() <= u64::MAX,
    ensures
        g.append_all(meshes).locations.contains_key(i as u64),
        g.append_all(meshes).locations[i as u64] == (MeshLocation {
            vertex_offset_: (g.vertices.len() + all_vertices(meshes.take(i)).len()) as usize,
            index_offset_: (g.indices.len() + all_indices(meshes.take(i)).len()) as usize,
            vertex_count_: meshes[i].vertices.len() as usize,
            index_count_: meshes[i].indices.len() as usize,
        }),
    decreases meshes.len(),
{
    let last = meshes.len() - 1;
    lemma_append_all(g, meshes.drop_last());
    if i == last {
        assert(meshes.take(i) =~= meshes.drop_last());
    } else {
        assert(meshes.drop_last().take(i) =~= meshes.take(i));
        lemma_append_all_location(g, meshes.drop_last(), i);
    }
}

/// Loading a palette lays its meshes back to back in identifier order: mesh `i` starts where
/// the meshes before it end, in both arrays, its location gives its own counts, and the ranges
/// it names hold exactly its vertices and indices, after what the arrays held before.
pub proof fn lemma_palette_batching(g: GeometryModel, meshes: Seq<MeshData>, i: int)
    requires
        0 <= i < meshes.len() <= u64::MAX,
    ensures
        ({
            let h = g.append_all(meshes);
            let vo = g.vertices.len() + all_vertices(meshes.take(i)).len() as int;
            let io = g.indices.len() + all_indices(meshes.take(i)).len() as int;
            &&& h.locations.contains_key(i as u64)
            &&& h.locations[i as u64] == (MeshLocation {
                vertex_offset_: vo as usize,
                index_offset_: io as usize,
                vertex_count_: meshes[i].vertices.len() as usize,
                index_count_: meshes[i].indices.len() as usize,
            })
            &&& h.vertices.subrange(vo, vo + meshes[i].vertices.len()) == meshes[i].vertices
            &&& h.indices.subrange(io, io + meshes[i].indices.len()) == meshes[i].indices
            &&& h.vertices.take(g.vertices.len() as int) == g.vertices
            &&& h.indices.take(g.indices.len() as int) == g.indices
            &&& h.vertices.len() == g.vertices.len() + all_vertices(meshes).len()
            &&& h.indices.len() == g.indices.len() + all_indices(meshes).len()
        }),
{
    lemma_append_all_location(g, meshes, i);
    lemma_append_all(g, meshes);
    lemma_all_prefix(meshes, i + 1);
    let t = meshes.take(i + 1);
    assert(t.drop_last() =~= meshes.take(i));
    assert(t.last() == meshes[i]);
    let h = g.append_all(meshes);
    let pv = all_vertices(meshes.take(i));
    let pi = all_indices(meshes.take(i));
    let mv = meshes[i].vertices;
    let mi = meshes[i].indices;
    assert(all_vertices(t) == pv + mv);
    assert(all_indices(t) == pi + mi);
    assert(h.vertices.subrange(g.vertices.len() + pv.len() as int, g.vertices.len() + pv.len() + mv.len() as int)
        =~= mv) by {
        assert forall|k: int| 0 <= k < mv.len() implies h.vertices[g.vertices.len() + pv.len() + k]
            == mv[k] by {
            assert(all_vertices(meshes).take(all_vertices(t).len() as int)[pv.len() + k] == (pv
                + mv)[pv.len() + k]);
        }
    }
    assert(h.indices.subrange(g.indices.len() + pi.len() as int, g.indices.len() + pi.len() + mi.len() as int)
        =~= mi) by {
        assert forall|k: int| 0 <= k < mi.len() implies h.indices[g.indices.len() + pi.len() + k]
            == mi[k] by {
            assert(all_indices(meshes).take(all_indices(t).len() as int)[pi.len() + k] == (pi
                + mi)[pi.len() + k]);
        }
    }
    assert(h.vertices.take(g.vertices.len() as int) =~= g.vertices);
    assert(h.indices.take(g.indices.len() as int) =~= g.indices);
}

/// Identifiers handed out by successive loads of one manager strictly increase, so none is
/// handed out twice.
pub proof fn lemma_mesh_ids_increase(
    g0: GeometryModel,
    m1: MeshData,
    id1: u64,
    g1: GeometryModel,
    m2: MeshData,
    id2: u64,
    g2: GeometryModel,
)
    requires
        loads_mesh(g0, m1, id1, g1),
        loads_mesh(g1, m2, id2, g2),
    ensures
        id1 < id2,
        !g0.locations.contains_key(id1),
        !g1.locations.contains_key(id2),
        g2.next_id > id2,
{
}

} // verus!
