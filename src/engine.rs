//! The engine: the geometry shared by all renderers and the renderers themselves, one per
//! window, each with its own identifier.
use vstd::prelude::*;
use crate::error::EngineError;
use crate::frame_ring::MAX_FRAMES_IN_FLIGHT;
use crate::geometry_manager::{
    GeometryManager, GeometryModel, GeometryUpload, MAX_INDICES, MAX_VERTICES, all_indices,
    all_vertices,
};
use crate::instance_manager::UBO_SIZE;
use crate::mesh::Palette;
use crate::renderer::{FramePlan, MAX_INSTANCES, Renderer, RendererModel, frame_step};
use crate::scene::Scene;
use crate::vertex::{VERTEX_SIZE, vertices_bytes};
use crate::bytes::words_bytes;

verus! {

/// Identifier of a renderer of an engine.
pub type RendererID = u64;

/// The state of an engine.
pub ghost struct EngineModel {
    pub geometry: GeometryModel,
    pub renderers: Seq<RendererModel>,
}

/// What one engine update does: the geometry upload, when the geometry changed, and the
/// outcome of the frame of every renderer, in identifier order.
pub struct EngineFrame {
    pub upload_: Option<GeometryUpload>,
    pub frames_: Vec<Result<FramePlan, EngineError>>,
}

pub struct Engine {
    geometry_manager_: GeometryManager,
    renderers_: Vec<Renderer>,
}

impl View for Engine {
    type V = EngineModel;

    closed spec fn view(&self) -> EngineModel {
        EngineModel {
            geometry: self.geometry_manager_@,
            renderers: self.renderers_@.map_values(|r: Renderer| r@),
        }
    }
}

impl Engine {
    pub closed spec fn wf(&self) -> bool {
        &&& self.geometry_manager_@.wf()
        &&& forall|i: int| 0 <= i < self.renderers_@.len() ==> #[trigger] self.renderers_@[i].wf()
    }

    /// An engine without renderers or geometry, with the default capacities.
    pub fn new() -> (r: Engine)
        ensures
            r.wf(),
            r@.renderers.len() == 0,
            r@.geometry.vertices.len() == 0,
            r@.geometry.indices.len() == 0,
            r@.geometry.locations.dom().len() == 0,
            !r@.geometry.dirty,
            r@.geometry.max_vertices == MAX_VERTICES,
            r@.geometry.max_indices == MAX_INDICES,
    {
        let r = Engine {
            geometry_manager_: GeometryManager::new(MAX_VERTICES, MAX_INDICES),
            renderers_: Vec::new(),
        };
        assert(r@.renderers =~= Seq::<RendererModel>::empty());
        r
    }

    /// Adds a renderer for a swapchain of `num_images` images, with the default number of
    /// frames in flight and of instances, and returns its identifier: the number of renderers
    /// before.
    pub fn create_renderer(&mut self, num_images: usize) -> (id: RendererID)
        requires
            old(self).wf(),
            num_images * MAX_INSTANCES <= usize::MAX,
            num_images * (MAX_INSTANCES * UBO_SIZE) <= usize::MAX,
        ensures
            final(self).wf(),
            id == old(self)@.renderers.len(),
            final(self)@.geometry == old(self)@.geometry,
            final(self)@.renderers.drop_last() == old(self)@.renderers,
            final(self)@.renderers.len() == old(self)@.renderers.len() + 1,
            final(self)@.renderers.last().scenes.len() == 0,
            final(self)@.renderers.last().ring.current == 0,
            final(self)@.renderers.last().ring.pending.len() == MAX_FRAMES_IN_FLIGHT,
            final(self)@.renderers.last().num_images == num_images,
            final(self)@.renderers.last().max_instances == MAX_INSTANCES,
    {
        let renderer = Renderer::new(num_images, MAX_FRAMES_IN_FLIGHT, MAX_INSTANCES);
        let id = self.renderers_.len() as u64;
        self.renderers_.push(renderer);
        assert(self@.renderers.drop_last() =~= old(self)@.renderers);
        id
    }

    /// The renderer `renderer_id`.
    pub fn get_renderer(&self, renderer_id: RendererID) -> (r: Result<&Renderer, EngineError>)
        ensures
            r.is_ok() <==> renderer_id < self@.renderers.len(),
            r.is_ok() ==> r.unwrap()@ == self@.renderers[renderer_id as int],
            r.is_err() ==> r == Err::<&Renderer, EngineError>(EngineError::NotFound),
    {
        if renderer_id >= self.renderers_.len() as u64 {
            return Err(EngineError::NotFound);
        }
        Ok(&self.renderers_[renderer_id as usize])
    }

    /// The geometry shared by all renderers.
    pub fn geometry(&self) -> (r: &GeometryManager)
        ensures
            r@ == self@.geometry,
    {
        &self.geometry_manager_
    }

    /// Queues a copy of `scene` on renderer `renderer_id`.
    pub fn queue_scene(&mut self, renderer_id: RendererID, scene: &Scene) -> (r: Result<
        (),
        EngineError,
    >)
        requires
            old(self).wf(),
        ensures
            final(self).wf(),
            r.is_ok() <==> renderer_id < old(self)@.renderers.len(),
            r.is_err() ==> r == Err::<(), EngineError>(EngineError::NotFound)
                && final(self)@ == old(self)@,
            r.is_ok() ==> final(self)@ == (EngineModel {
                renderers: old(self)@.renderers.update(
                    renderer_id as int,
                    RendererModel {
                        scenes: old(self)@.renderers[renderer_id as int].scenes.push(scene@),
                        ..old(self)@.renderers[renderer_id as int]
                    },
                ),
                ..old(self)@
            }),
    {
        if renderer_id >= self.renderers_.len() as u64 {
            return Err(EngineError::NotFound);
        }
        let i = renderer_id as usize;
        let mut renderer = self.renderers_.remove(i);
        renderer.queue_scene(scene);
        self.renderers_.insert(i, renderer);
        proof {
            assert forall|k: int| 0 <= k < self.renderers_@.len() implies #[trigger] self.renderers_@[k].wf() by {
                if k != i {
                    assert(self.renderers_@[k] == old(self).renderers_@[k]);
                }
            }
            assert(self@.renderers =~= old(self)@.renderers.update(
                renderer_id as int,
                RendererModel {
                    scenes: old(self)@.renderers[renderer_id as int].scenes.push(scene@),
                    ..old(self)@.renderers[renderer_id as int]
                },
            ));
        }
        Ok(())
    }

    /// Appends every mesh of `palette` to the shared geometry; see
    /// `GeometryManager::load_palette`.
    pub fn load_palette(&mut self, palette: &Palette) -> (r: Result<(), EngineError>)
        requires
            old(self).wf(),
        ensures
            final(self).wf(),
            final(self)@.renderers == old(self)@.renderers,
            r.is_ok() <==> old(self)@.geometry.vertices.len() + all_vertices(palette@).len()
                <= old(self)@.geometry.max_vertices && old(self)@.geometry.indices.len()
                + all_indices(palette@).len() <= old(self)@.geometry.max_indices,
            r.is_err() ==> r == Err::<(), EngineError>(EngineError::CapacityExceeded)
                && final(self)@ == old(self)@,
            r.is_ok() ==> final(self)@.geometry == old(self)@.geometry.raised_to(
                palette@.len() as u64,
            ).append_all(palette@),
    {
        self.geometry_manager_.load_palette(palette)
    }

    /// One engine frame: the geometry upload, when the geometry changed since the last one,
    /// then one frame of every renderer in identifier order, each against the geometry.
    pub fn update(&mut self) -> (r: EngineFrame)
        requires
            old(self).wf(),
        ensures
            final(self).wf(),
            final(self)@.geometry == (GeometryModel { dirty: false, ..old(self)@.geometry }),
            r.upload_.is_some() <==> old(self)@.geometry.dirty,
            r.upload_.is_some() ==> r.upload_.unwrap().vertex_bytes@ == vertices_bytes(
                old(self)@.geometry.vertices,
            ) && r.upload_.unwrap().index_bytes@ == words_bytes(old(self)@.geometry.indices)
                && r.upload_.unwrap().vertex_copy.size == VERTEX_SIZE * old(
                self,
            )@.geometry.vertices.len() && r.upload_.unwrap().index_copy.size == 4 * old(
                self,
            )@.geometry.indices.len(),
            r.frames_@.len() == old(self)@.renderers.len(),
            final(self)@.renderers.len() == old(self)@.renderers.len(),
            forall|i: int|
                0 <= i < final(self)@.renderers.len() ==> (#[trigger] final(self)@.renderers[i]).ring.wf()
                    && final(self)@.renderers[i].uniforms.wf(),
            forall|i: int|
                0 <= i < old(self)@.renderers.len() ==> frame_step(
                    #[trigger] old(self)@.renderers[i],
                    final(self)@.geometry,
                    r.frames_@[i],
                    final(self)@.renderers[i],
                ),
    {
        let upload = self.geometry_manager_.update();
        let ghost g = self.geometry_manager_@;
        let n = self.renderers_.len();
        let mut frames: Vec<Result<FramePlan, EngineError>> = Vec::new();
        let mut i: usize = 0;
        while i < n
            invariant
                n == old(self)@.renderers.len(),
                i <= n,
                g.wf(),
                self.geometry_manager_@ == g,
                self.renderers_@.len() == n,
                forall|k: int| 0 <= k < n ==> #[trigger] self.renderers_@[k].wf(),
                forall|k: int| i <= k < n ==> self.renderers_@[k] == old(self).renderers_@[k],
                frames@.len() == i,
                forall|k: int|
                    0 <= k < i ==> frame_step(
                        #[trigger] old(self)@.renderers[k],
                        g,
                        frames@[k],
                        self.renderers_@[k]@,
                    ),
            decreases n - i,
        {
            let mut renderer = self.renderers_.remove(i);
            let frame = renderer.update(&self.geometry_manager_);
            self.renderers_.insert(i, renderer);
            frames.push(frame);
            proof {
                assert forall|k: int| 0 <= k < n implies #[trigger] self.renderers_@[k].wf() by {
                    if k != i {
                        assert(self.renderers_@[k] == old(self).renderers_@[k] || k < i);
                    }
                }
            }
            i = i + 1;
        }
        proof {
            assert forall|k: int| 0 <= k < self@.renderers.len() implies (
            #[trigger] self@.renderers[k]).ring.wf() && self@.renderers[k].uniforms.wf() by {
                self.renderers_@[k].lemma_wf_parts();
            }
        }
        EngineFrame { upload_: upload, frames_: frames }
    }
}

} // verus!
