//! The frame loop of one renderer: a FIFO of queued scenes and, per call of `update`, the
//! decisions of one frame (which scene to draw, the transforms to write, the descriptor sets to
//! rewrite, the draw calls to record, and the frame slot to wait on and submit with).
use vstd::prelude::*;
use std::collections::VecDeque;
use crate::error::EngineError;
use crate::frame_ring::{FrameRing, RingModel};
use crate::geometry_manager::{GeometryManager, GeometryModel, MeshLocation};
use crate::instance_manager::{InstanceManager, InstanceModel, UBO_SIZE};
use crate::scene::{Instance, Scene, SceneModel};
use crate::uniform_manager::{
    DescriptorBufferInfo, UniformManager, UniformModel, slot_info, writes_transforms,
};
use crate::vertex::{TRANSFORM_SIZE, Transform, mat4_to_bytes};

verus! {

/// Default number of instances a frame can draw.
pub const MAX_INSTANCES: usize = 100;

/// One indexed draw of one instance: the descriptor set to bind and the range of the shared
/// vertex and index buffers that holds the instance's mesh.
#[derive(Clone, Copy, Debug, PartialEq, Eq, Structural)]
pub struct DrawCommand {
    pub descriptor_set_: usize,
    pub index_count_: u32,
    pub instance_count_: u32,
    pub first_index_: u32,
    pub vertex_offset_: i32,
    pub first_instance_: u32,
}

/// A rewrite of the uniform-buffer binding of one descriptor set.
#[derive(Clone, Copy, Debug, PartialEq, Eq, Structural)]
pub struct DescriptorWrite {
    pub dst_set_: usize,
    pub buffer_info_: DescriptorBufferInfo,
}

/// What is recorded into the command buffer of every swapchain image for a new scene.
pub struct Recording {
    /// View then projection, 128 bytes, pushed at offset 0 for the fragment stage.
    pub push_constants_: Vec<u8>,
    pub descriptor_writes_: Vec<DescriptorWrite>,
    pub draws_: Vec<DrawCommand>,
}

/// The decisions of one frame.
pub struct FramePlan {
    /// Present when a scene was taken from the queue: the commands to record anew.
    pub recording_: Option<Recording>,
    /// The slot whose fence is waited on and reset, whose semaphores the acquire, submit and
    /// present use, and whose fence the submission signals.
    pub frame_slot_: u32,
}

/// An instance as a frame draws it: its mesh and the descriptor set bound for it.
#[derive(Clone, Copy, Debug, PartialEq, Eq, Structural)]
pub struct VulkanInstance {
    pub mesh_id_: u64,
    pub descriptor_set_: usize,
}

/// What one frame draws: the instances with their descriptor sets, and the camera.
pub struct FrameData {
    pub vulkan_instances_: Vec<VulkanInstance>,
    pub view_: Transform,
    pub projection_: Transform,
}

/// The commands recorded into every command buffer for one frame.
pub struct CommandRecording {
    /// View then projection, 128 bytes, pushed at offset 0 for the fragment stage.
    pub push_constants_: Vec<u8>,
    pub draws_: Vec<DrawCommand>,
}

/// The draw, through `descriptor_set`, of an instance whose mesh lies at `location`.
pub open spec fn draw_for(location: MeshLocation, descriptor_set: usize) -> DrawCommand {
    DrawCommand {
        descriptor_set_: descriptor_set,
        index_count_: location.index_count_ as u32,
        instance_count_: 1,
        first_index_: location.index_offset_ as u32,
        vertex_offset_: location.vertex_offset_ as i32,
        first_instance_: 0,
    }
}

/// Every instance's mesh has a location.
pub open spec fn all_located(geometry: GeometryModel, instances: Seq<Instance>) -> bool {
    forall|i: int|
        0 <= i < instances.len() ==> geometry.locations.contains_key(
            #[trigger] instances[i].mesh_id_,
        )
}

/// Every instance's mesh has a location.
pub open spec fn all_vulkan_located(geometry: GeometryModel, instances: Seq<VulkanInstance>) -> bool {
    forall|i: int|
        0 <= i < instances.len() ==> geometry.locations.contains_key(
            #[trigger] instances[i].mesh_id_,
        )
}

/// The instances of a frame, in their order, instance `i` bound through descriptor set `i`.
pub fn vulkan_instances_of(instances: &Vec<Instance>) -> (r: Vec<VulkanInstance>)
    ensures
        r@.len() == instances@.len(),
        forall|i: int|
            0 <= i < instances@.len() ==> #[trigger] r@[i] == (VulkanInstance {
                mesh_id_: instances@[i].mesh_id_,
                descriptor_set_: i as usize,
            }),
{
    let mut r: Vec<VulkanInstance> = Vec::new();
    let mut i: usize = 0;
    while i < instances.len()
        invariant
            i <= instances@.len(),
            r@.len() == i,
            forall|a: int|
                0 <= a < i ==> #[trigger] r@[a] == (VulkanInstance {
                    mesh_id_: instances@[a].mesh_id_,
                    descriptor_set_: a as usize,
                }),
        decreases instances@.len() - i,
    {
        r.push(VulkanInstance { mesh_id_: instances[i].mesh_id_, descriptor_set_: i });
        i = i + 1;
    }
    r
}

/// The commands of one frame: the camera's push-constant block (view, then projection), then
/// one indexed draw per instance, in order, over the range of its mesh and through its
/// descriptor set. Refused when an instance's mesh has no location.
pub fn record_draw_commands_forward(geometry: &GeometryManager, frame_data: &FrameData) -> (r:
    Result<CommandRecording, EngineError>)
    requires
        geometry@.wf(),
    ensures
        r.is_ok() <==> all_vulkan_located(geometry@, frame_data.vulkan_instances_@),
        r.is_err() ==> r == Err::<CommandRecording, EngineError>(EngineError::NotFound),
        r.is_ok() ==> r.unwrap().push_constants_@ == frame_data.view_.bytes()
            + frame_data.projection_.bytes(),
        r.is_ok() ==> r.unwrap().push_constants_@.len() == 2 * TRANSFORM_SIZE,
        r.is_ok() ==> r.unwrap().draws_@.len() == frame_data.vulkan_instances_@.len() && forall|
            i: int,
        |
            0 <= i < frame_data.vulkan_instances_@.len() ==> #[trigger] r.unwrap().draws_@[i]
                == draw_for(
                geometry@.locations[frame_data.vulkan_instances_@[i].mesh_id_],
                frame_data.vulkan_instances_@[i].descriptor_set_,
            ),
{
    let mut draws: Vec<DrawCommand> = Vec::new();
    let mut i: usize = 0;
    while i < frame_data.vulkan_instances_.len()
        invariant
            geometry@.wf(),
            i <= frame_data.vulkan_instances_@.len(),
            all_vulkan_located(geometry@, frame_data.vulkan_instances_@.subrange(0, i as int)),
            draws@.len() == i,
            forall|a: int|
                0 <= a < i ==> #[trigger] draws@[a] == draw_for(
                    geometry@.locations[frame_data.vulkan_instances_@[a].mesh_id_],
                    frame_data.vulkan_instances_@[a].descriptor_set_,
                ),
        decreases frame_data.vulkan_instances_@.len() - i,
    {
        let location = match geometry.get_mesh_location(frame_data.vulkan_instances_[i].mesh_id_) {
            Ok(location) => location,
            Err(e) => {
                assert(!geometry@.locations.contains_key(frame_data.vulkan_instances_@[i as int].mesh_id_));
                assert(!all_vulkan_located(geometry@, frame_data.vulkan_instances_@));
                return Err(e);
            },
        };
        proof {
            assert(geometry@.locations.contains_key(frame_data.vulkan_instances_@[i as int].mesh_id_));
        }
        draws.push(
            DrawCommand {
                descriptor_set_: frame_data.vulkan_instances_[i].descriptor_set_,
                index_count_: location.index_count_ as u32,
                instance_count_: 1,
                first_index_: location.index_offset_ as u32,
                vertex_offset_: location.vertex_offset_ as i32,
                first_instance_: 0,
            },
        );
        i = i + 1;
        assert forall|a: int| 0 <= a < i implies geometry@.locations.contains_key(
            #[trigger] frame_data.vulkan_instances_@.subrange(0, i as int)[a].mesh_id_,
        ) by {
            if a < i - 1 {
                assert(frame_data.vulkan_instances_@.subrange(0, i as int)[a] == frame_data.vulkan_instances_@.subrange(
                    0,
                    i - 1,
                )[a]);
            }
        }
    }
    assert(frame_data.vulkan_instances_@.subrange(0, i as int) =~= frame_data.vulkan_instances_@);
    let mut push_constants = mat4_to_bytes(&frame_data.view_);
    let mut projection = mat4_to_bytes(&frame_data.projection_);
    push_constants.append(&mut projection);
    Ok(CommandRecording { push_constants_: push_constants, draws_: draws })
}

/// The rewrite of descriptor set `i` to the binding `infos[i]`, for each `i`: the first sets of
/// the pool, one per instance. Sets past them keep their bindings.
pub fn update_descriptor_sets(infos: &Vec<DescriptorBufferInfo>) -> (r: Vec<DescriptorWrite>)
    ensures
        r@.len() == infos@.len(),
        forall|i: int|
            0 <= i < infos@.len() ==> #[trigger] r@[i] == (DescriptorWrite {
                dst_set_: i as usize,
                buffer_info_: infos@[i],
            }),
{
    let mut writes: Vec<DescriptorWrite> = Vec::new();
    let mut i: usize = 0;
    while i < infos.len()
        invariant
            i <= infos@.len(),
            writes@.len() == i,
            forall|a: int|
                0 <= a < i ==> #[trigger] writes@[a] == (DescriptorWrite {
                    dst_set_: a as usize,
                    buffer_info_: infos@[a],
                }),
        decreases infos@.len() - i,
    {
        writes.push(DescriptorWrite { dst_set_: i, buffer_info_: infos[i] });
        i = i + 1;
    }
    writes
}

/// The state of a renderer.
pub ghost struct RendererModel {
    pub scenes: Seq<SceneModel>,
    pub ring: RingModel,
    pub uniforms: UniformModel,
    pub instances: InstanceModel,
    pub next_descriptor_set: nat,
    pub num_images: nat,
    pub max_instances: nat,
}

impl RendererModel {
    /// The scene that the next `update` takes, when there is one.
    pub open spec fn next_scene(self) -> SceneModel {
        self.scenes[0]
    }
}

pub struct Renderer {
    scenes_: VecDeque<Scene>,
    uniform_manager_: UniformManager,
    instance_manager_: InstanceManager,
    curr_descriptor_set_: usize,
    ring_: FrameRing,
    num_images_: usize,
    max_instances_: usize,
}

impl View for Renderer {
    type V = RendererModel;

    closed spec fn view(&self) -> RendererModel {
        RendererModel {
            scenes: self.scenes_@.map_values(|s: Scene| s@),
            ring: self.ring_@,
            uniforms: self.uniform_manager_@,
            instances: self.instance_manager_@,
            next_descriptor_set: self.curr_descriptor_set_ as nat,
            num_images: self.num_images_ as nat,
            max_instances: self.max_instances_ as nat,
        }
    }
}

impl Renderer {
    /// The ring and the uniform buffers have one slot per frame in flight, and each uniform
    /// buffer room for the transforms of `max_instances` instances.
    pub closed spec fn wf(&self) -> bool {
        &&& self.ring_.wf()
        &&& self.uniform_manager_.wf()
        &&& self.uniform_manager_@.wf()
        &&& self.uniform_manager_@.num_frames == self.ring_@.pending.len()
        &&& self.uniform_manager_@.max_instances == self.max_instances_
        &&& self.num_images_ * self.max_instances_ <= usize::MAX
        &&& self.instance_manager_.wf()
    }

    /// A well-formed renderer's ring and uniform buffers are well formed.
    pub proof fn lemma_wf_parts(&self)
        requires
            self.wf(),
        ensures
            self@.ring.wf(),
            self@.uniforms.wf(),
    {
    }

    /// A renderer for a swapchain of `num_images` images, with `max_frames_in_flight` frame
    /// slots and room for `max_instances` instances per frame; no scene queued.
    pub fn new(num_images: usize, max_frames_in_flight: u32, max_instances: usize) -> (r: Renderer)
        requires
            max_frames_in_flight > 0,
            max_instances * TRANSFORM_SIZE <= usize::MAX,
            max_frames_in_flight * (max_instances * TRANSFORM_SIZE) <= usize::MAX,
            num_images * max_instances <= usize::MAX,
            max_instances * UBO_SIZE <= usize::MAX,
            num_images * (max_instances * UBO_SIZE) <= usize::MAX,
        ensures
            r.wf(),
            r@.ring.wf(),
            r@.uniforms.wf(),
            r@.scenes.len() == 0,
            r@.ring.current == 0,
            r@.ring.pending == Seq::new(max_frames_in_flight as nat, |k: int| 0u32),
            r@.uniforms.num_frames == max_frames_in_flight,
            r@.num_images == num_images,
            r@.max_instances == max_instances,
            r@.instances.instances.len() == 0,
            r@.instances.num_frames == num_images,
            r@.instances.max_objects == max_instances,
            r@.next_descriptor_set == 0,
    {
        let r = Renderer {
            scenes_: VecDeque::new(),
            uniform_manager_: UniformManager::new(max_instances, max_frames_in_flight as usize),
            instance_manager_: InstanceManager::new(max_instances, num_images),
            curr_descriptor_set_: 0,
            ring_: FrameRing::new(max_frames_in_flight),
            num_images_: num_images,
            max_instances_: max_instances,
        };
        assert(r@.scenes =~= Seq::<SceneModel>::empty());
        r
    }

    /// The number of descriptor sets the pool holds: one per instance for every swapchain
    /// image.
    pub fn create_descriptor_sets(&self) -> (r: usize)
        requires
            self.wf(),
        ensures
            r == self@.num_images * self@.max_instances,
    {
        self.num_images_ * self.max_instances_
    }

    /// Registers an instance of `mesh_id` with the next unused descriptor set of the pool and
    /// returns its identifier. Refused, with nothing changed, when the pool or the instance
    /// buffers are used up.
    pub fn create_instance(&mut self, mesh_id: u64) -> (r: Result<u64, EngineError>)
        requires
            old(self).wf(),
        ensures
            final(self).wf(),
            r.is_ok() <==> old(self)@.next_descriptor_set < old(self)@.num_images
                * old(self)@.max_instances && old(self)@.instances.instances.len()
                < old(self)@.instances.max_objects,
            r.is_err() ==> r == Err::<u64, EngineError>(EngineError::CapacityExceeded)
                && final(self)@ == old(self)@,
            r.is_ok() ==> {
                let (instance, info) = final(self)@.instances.instances.last();
                &&& r.unwrap() == old(self)@.instances.instances.len()
                &&& final(self)@ == (RendererModel {
                    instances: InstanceModel {
                        instances: old(self)@.instances.instances.push((instance, info)),
                        ..old(self)@.instances
                    },
                    next_descriptor_set: old(self)@.next_descriptor_set + 1,
                    ..old(self)@
                })
                &&& instance.mesh_id_ == mesh_id
                &&& instance.descriptor_set_ == old(self)@.next_descriptor_set
            },
    {
        if self.curr_descriptor_set_ >= self.num_images_ * self.max_instances_ {
            return Err(EngineError::CapacityExceeded);
        }
        let descriptor_set = self.curr_descriptor_set_;
        let r = self.instance_manager_.create_instance(mesh_id, descriptor_set);
        if r.is_ok() {
            self.curr_descriptor_set_ = descriptor_set + 1;
        }
        r
    }

    /// Queues a copy of `scene`: later changes to `scene` do not reach the copy.
    pub fn queue_scene(&mut self, scene: &Scene)
        ensures
            final(self)@ == (RendererModel { scenes: old(self)@.scenes.push(scene@), ..old(self)@ }),
            final(self).wf() == old(self).wf(),
    {
        self.scenes_.push_back(scene.snapshot());
        assert(self@.scenes =~= old(self)@.scenes.push(scene@));
    }

    /// The number of scenes waiting.
    pub fn queued_scenes(&self) -> (r: usize)
        ensures
            r == self@.scenes.len(),
    {
        self.scenes_.len()
    }

    /// The slot of the next frame.
    pub fn current_frame(&self) -> (r: u32)
        ensures
            r == self@.ring.current,
    {
        self.ring_.current_frame()
    }

    /// `size` bytes of the uniform buffer of slot `frame`, from `offset` on.
    pub fn read_uniforms(&self, frame: u32, offset: usize, size: usize) -> (r: Vec<u8>)
        requires
            self.wf(),
            frame < self@.uniforms.num_frames,
            offset + size <= self@.uniforms.buffer_size(),
        ensures
            r@ == self@.uniforms.frame_bytes(frame as nat).subrange(offset as int, offset + size),
    {
        self.uniform_manager_.read_back(frame, offset, size)
    }

    /// Writes the transforms of `scene` into the uniform buffer of the current slot and returns
    /// what to record for it. Refused, with nothing changed, when the scene has more instances
    /// than a frame can draw or an instance's mesh has no location.
    pub fn process_scene(&mut self, geometry: &GeometryManager, scene: &Scene) -> (r: Result<
        Recording,
        EngineError,
    >)
        requires
            old(self).wf(),
            geometry@.wf(),
        ensures
            final(self).wf(),
            r.is_ok() <==> scene@.instances.len() <= old(self)@.max_instances && all_located(
                geometry@,
                scene@.instances,
            ),
            r.is_err() ==> final(self)@ == old(self)@,
            scene@.instances.len() > old(self)@.max_instances ==> r == Err::<Recording, EngineError>(
                EngineError::CapacityExceeded,
            ),
            scene@.instances.len() <= old(self)@.max_instances && !all_located(
                geometry@,
                scene@.instances,
            ) ==> r == Err::<Recording, EngineError>(EngineError::NotFound),
            r.is_ok() ==> final(self)@ == (RendererModel { uniforms: final(self)@.uniforms, ..old(self)@ }),
            r.is_ok() ==> records_scene(old(self)@, geometry@, scene@, r.unwrap(), final(self)@),
    {
        let instances = scene.get_instances();
        if instances.len() > self.max_instances_ {
            return Err(EngineError::CapacityExceeded);
        }
        let frame_data = FrameData {
            vulkan_instances_: vulkan_instances_of(&instances),
            view_: scene.view_matrix(),
            projection_: scene.projection_matrix(),
        };
        proof {
            assert(all_vulkan_located(geometry@, frame_data.vulkan_instances_@) == all_located(
                geometry@,
                instances@,
            )) by {
                if all_located(geometry@, instances@) {
                    assert forall|i: int| 0 <= i < frame_data.vulkan_instances_@.len() implies geometry@.locations.contains_key(
                        #[trigger] frame_data.vulkan_instances_@[i].mesh_id_,
                    ) by {
                        assert(geometry@.locations.contains_key(instances@[i].mesh_id_));
                    }
                }
                if all_vulkan_located(geometry@, frame_data.vulkan_instances_@) {
                    assert forall|i: int| 0 <= i < instances@.len() implies geometry@.locations.contains_key(
                        #[trigger] instances@[i].mesh_id_,
                    ) by {
                        assert(geometry@.locations.contains_key(frame_data.vulkan_instances_@[i].mesh_id_));
                    }
                }
            }
        }
        let commands = match record_draw_commands_forward(geometry, &frame_data) {
            Ok(commands) => commands,
            Err(e) => {
                return Err(e);
            },
        };
        let curr = self.ring_.current_frame();
        let infos = match self.uniform_manager_.update_uniforms(curr, &instances) {
            Ok(infos) => infos,
            Err(e) => {
                return Err(e);
            },
        };
        let writes = update_descriptor_sets(&infos);
        let recording = Recording {
            push_constants_: commands.push_constants_,
            descriptor_writes_: writes,
            draws_: commands.draws_,
        };
        assert(self@.scenes =~= old(self)@.scenes);
        Ok(recording)
    }

    /// One frame. Takes the oldest queued scene, if any, and plans it (see `process_scene`);
    /// then waits on the current slot, submits on it and moves to the next slot. Refused, with
    /// nothing changed, when the scene cannot be planned.
    pub fn update(&mut self, geometry: &GeometryManager) -> (r: Result<FramePlan, EngineError>)
        requires
            old(self).wf(),
            geometry@.wf(),
        ensures
            final(self).wf(),
            final(self)@.ring.wf(),
            final(self)@.uniforms.wf(),
            frame_step(old(self)@, geometry@, r, final(self)@),
    {
        let recording = match self.scenes_.pop_front() {
            Some(scene) => {
                proof {
                    assert(scene@ == old(self)@.next_scene());
                }
                let ghost popped = self@;
                match self.process_scene(geometry, &scene) {
                    Ok(recording) => Some(recording),
                    Err(e) => {
                        let ghost rest = self.scenes_@;
                        self.scenes_.push_front(scene);
                        proof {
                            assert(rest.map_values(|s: Scene| s@) == popped.scenes);
                            assert forall|i: int| 0 <= i < old(self)@.scenes.len() implies
                                self@.scenes[i] == old(self)@.scenes[i] by {
                                if i > 0 {
                                    assert(self.scenes_@[i] == rest[i - 1]);
                                    assert(popped.scenes[i - 1] == rest[i - 1]@);
                                    assert(old(self).scenes_@[i] == old(self).scenes_@.subrange(
                                        1,
                                        old(self).scenes_@.len() as int,
                                    )[i - 1]);
                                }
                            }
                            assert(self@.scenes =~= old(self)@.scenes);
                        }
                        return Err(e);
                    },
                }
            },
            None => None,
        };
        let ghost planned = self@;
        let slot = self.ring_.cycle();
        proof {
            if old(self)@.scenes.len() > 0 {
                assert(planned.scenes =~= old(self)@.scenes.drop_first());
            }
        }
        Ok(FramePlan { recording_: recording, frame_slot_: slot })
    }
}

/// `recording` draws `scene` against `geometry`, and `after` holds the scene's transforms in the
/// uniform buffer of the current slot of `before`: draw `i` binds descriptor set `i`, which is
/// rewritten to the transform slot `i` of that buffer, and covers the mesh of instance `i`.
pub open spec fn records_scene(
    before: RendererModel,
    geometry: GeometryModel,
    scene: SceneModel,
    recording: Recording,
    after: RendererModel,
) -> bool {
    let n = scene.instances.len();
    &&& recording.push_constants_@ == scene.view.bytes() + scene.projection.bytes()
    &&& recording.draws_@.len() == n
    &&& recording.descriptor_writes_@.len() == n
    &&& forall|i: int|
        0 <= i < n ==> #[trigger] recording.draws_@[i] == draw_for(
            geometry.locations[scene.instances[i].mesh_id_],
            i as usize,
        )
    &&& forall|i: int|
        0 <= i < n ==> #[trigger] recording.descriptor_writes_@[i] == (DescriptorWrite {
            dst_set_: i as usize,
            buffer_info_: slot_info(before.ring.current as u32, i),
        })
    &&& writes_transforms(before.uniforms, before.ring.current, scene.instances, after.uniforms)
}

/// `after` and `r` are what a renderer in state `before` reaches and returns in one `update`
/// against `geometry`.
pub open spec fn frame_step(
    before: RendererModel,
    geometry: GeometryModel,
    r: Result<FramePlan, EngineError>,
    after: RendererModel,
) -> bool {
    let has_scene = before.scenes.len() > 0;
    let too_many = has_scene && before.next_scene().instances.len() > before.max_instances;
    let unlocated = has_scene && !all_located(geometry, before.next_scene().instances);
    &&& r.is_err() <==> too_many || unlocated
    &&& r.is_err() ==> after == before
    &&& too_many ==> r == Err::<FramePlan, EngineError>(EngineError::CapacityExceeded)
    &&& !too_many && unlocated ==> r == Err::<FramePlan, EngineError>(EngineError::NotFound)
    &&& r.is_ok() ==> {
        &&& r.unwrap().frame_slot_ == before.ring.current
        &&& after.ring == before.ring.cycled()
        &&& after.num_images == before.num_images
        &&& after.max_instances == before.max_instances
        &&& after.instances == before.instances
        &&& after.next_descriptor_set == before.next_descriptor_set
        &&& !has_scene ==> r.unwrap().recording_.is_none() && after.scenes == before.scenes
            && after.uniforms == before.uniforms
        &&& has_scene ==> r.unwrap().recording_.is_some() && after.scenes
            == before.scenes.drop_first() && records_scene(
            before,
            geometry,
            before.next_scene(),
            r.unwrap().recording_.unwrap(),
            after,
        )
    }
}

/// A scene queued on an idle renderer is drawn by its next frame exactly as it was when it
/// was queued: the queue holds a copy, so what the caller does to its scene afterwards does
/// not reach the frame.
pub proof fn lemma_snapshot_isolation(
    r0: RendererModel,
    scene: SceneModel,
    r1: RendererModel,
    geometry: GeometryModel,
    plan: FramePlan,
    r2: RendererModel,
)
    requires
        r0.scenes.len() == 0,
        r1 == (RendererModel { scenes: r0.scenes.push(scene), ..r0 }),
        frame_step(r1, geometry, Ok(plan), r2),
    ensures
        plan.recording_.is_some(),
        records_scene(r1, geometry, scene, plan.recording_.unwrap(), r2),
        r2.scenes.len() == 0,
{
    assert(r1.next_scene() == scene);
}

} // verus!
