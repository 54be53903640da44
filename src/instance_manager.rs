//! Instances registered once with a renderer, each with a descriptor set of its own and a
//! uniform block (model, view and projection) kept at a fixed place in every frame's buffer.
use vstd::prelude::*;
use crate::bytes::{lemma_words_bytes_len, push_words, words_bytes, write_at};
use crate::error::EngineError;
use crate::uniform_manager::DescriptorBufferInfo;
use crate::vertex::{Transform, identity_elements};

verus! {

/// Bytes taken by one uniform block: three 4x4 matrices.
pub const UBO_SIZE: usize = 192;

/// The uniform block of an instance.
#[derive(Clone, Copy, Debug)]
pub struct UBO {
    pub model_: Transform,
    pub view_: Transform,
    pub projection_: Transform,
}

impl UBO {
    /// The bytes of the block: model, view, then projection.
    pub open spec fn bytes(&self) -> Seq<u8> {
        words_bytes(self.model_.elements_@ + self.view_.elements_@ + self.projection_.elements_@)
    }

    /// The bytes of the block: model, view, then projection.
    pub fn to_bytes(&self) -> (r: Vec<u8>)
        ensures
            r@ == self.bytes(),
            r@.len() == UBO_SIZE,
    {
        let mut words: Vec<u32> = Vec::new();
        let mut k: usize = 0;
        while k < 16
            invariant
                k <= 16,
                words@ == self.model_.elements_@.subrange(0, k as int),
            decreases 16 - k,
        {
            words.push(self.model_.elements_[k]);
            k = k + 1;
            assert(words@ =~= self.model_.elements_@.subrange(0, k as int));
        }
        let mut k: usize = 0;
        while k < 16
            invariant
                k <= 16,
                words@ == self.model_.elements_@ + self.view_.elements_@.subrange(0, k as int),
            decreases 16 - k,
        {
            words.push(self.view_.elements_[k]);
            k = k + 1;
            assert(words@ =~= self.model_.elements_@ + self.view_.elements_@.subrange(0, k as int));
        }
        let mut k: usize = 0;
        while k < 16
            invariant
                k <= 16,
                words@ == self.model_.elements_@ + self.view_.elements_@
                    + self.projection_.elements_@.subrange(0, k as int),
            decreases 16 - k,
        {
            words.push(self.projection_.elements_[k]);
            k = k + 1;
            assert(words@ =~= self.model_.elements_@ + self.view_.elements_@
                + self.projection_.elements_@.subrange(0, k as int));
        }
        assert(self.projection_.elements_@.subrange(0, 16) =~= self.projection_.elements_@);
        let mut r: Vec<u8> = Vec::new();
        push_words(&mut r, words.as_slice());
        proof {
            lemma_words_bytes_len(words@);
        }
        r
    }
}

/// An instance registered with a renderer.
#[derive(Clone, Copy, Debug)]
pub struct Instance {
    pub mesh_id_: u64,
    pub ubo_: UBO,
    pub descriptor_set_: usize,
    pub dirty_: bool,
}

impl Instance {
    pub open spec fn block(&self) -> UBO {
        self.ubo_
    }

    pub open spec fn is_dirty(&self) -> bool {
        self.dirty_
    }

    /// An instance of `mesh_id` bound through `descriptor_set`, with identity matrices.
    pub fn new(mesh_id: u64, descriptor_set: usize) -> (r: Instance)
        ensures
            r.mesh_id_ == mesh_id,
            r.descriptor_set_ == descriptor_set,
            r.block().model_.elements_@ == identity_elements(),
            r.block().view_.elements_@ == identity_elements(),
            r.block().projection_.elements_@ == identity_elements(),
            r.is_dirty(),
    {
        Instance {
            mesh_id_: mesh_id,
            ubo_: UBO {
                model_: Transform::identity(),
                view_: Transform::identity(),
                projection_: Transform::identity(),
            },
            descriptor_set_: descriptor_set,
            dirty_: true,
        }
    }

    /// Replaces the uniform block and marks the instance changed.
    pub fn update(&mut self, ubo: UBO)
        ensures
            final(self).mesh_id_ == old(self).mesh_id_,
            final(self).descriptor_set_ == old(self).descriptor_set_,
            final(self).block() == ubo,
            final(self).is_dirty(),
    {
        self.ubo_ = ubo;
        self.dirty_ = true;
    }

    /// The uniform block.
    pub fn ubo(&self) -> (r: UBO)
        ensures
            r == self.block(),
    {
        self.ubo_
    }
}

/// What `update` leaves at byte `j` of the block of instance `i` in the buffer of `frame`: the
/// block's byte when the instance changed, else the byte that was there.
pub open spec fn block_or_kept(m: InstanceModel, frame: nat, i: int, j: int) -> u8 {
    if m.instances[i].0.is_dirty() {
        m.instances[i].0.block().bytes()[j]
    } else {
        m.memory[m.base(frame) + i * UBO_SIZE + j]
    }
}

/// The state of an instance manager.
pub ghost struct InstanceModel {
    pub instances: Seq<(Instance, DescriptorBufferInfo)>,
    pub memory: Seq<u8>,
    pub num_frames: nat,
    pub max_objects: nat,
}

impl InstanceModel {
    pub open spec fn buffer_size(self) -> int {
        self.max_objects * UBO_SIZE
    }

    pub open spec fn base(self, frame: nat) -> int {
        frame * self.buffer_size()
    }
}

pub struct InstanceManager {
    instances_: Vec<(Instance, DescriptorBufferInfo)>,
    memory_: Vec<u8>,
    num_frames_: usize,
    max_objects_: usize,
}

impl View for InstanceManager {
    type V = InstanceModel;

    closed spec fn view(&self) -> InstanceModel {
        InstanceModel {
            instances: self.instances_@,
            memory: self.memory_@,
            num_frames: self.num_frames_ as nat,
            max_objects: self.max_objects_ as nat,
        }
    }
}

impl InstanceManager {
    pub open spec fn wf(&self) -> bool {
        &&& self@.memory.len() == self@.num_frames * self@.buffer_size()
        &&& self@.instances.len() <= self@.max_objects
        &&& self@.memory.len() <= usize::MAX
        &&& self@.buffer_size() <= usize::MAX
    }

    /// A manager without instances whose `num_frames` buffers each hold `max_objects`
    /// uniform blocks, all bytes zero.
    pub fn new(max_objects: usize, num_frames: usize) -> (r: InstanceManager)
        requires
            max_objects * UBO_SIZE <= usize::MAX,
            num_frames * (max_objects * UBO_SIZE) <= usize::MAX,
        ensures
            r.wf(),
            r@.instances.len() == 0,
            r@.num_frames == num_frames,
            r@.max_objects == max_objects,
            forall|k: int| 0 <= k < r@.memory.len() ==> r@.memory[k] == 0,
    {
        let total = num_frames * (max_objects * UBO_SIZE);
        let mut memory: Vec<u8> = Vec::new();
        let mut k: usize = 0;
        while k < total
            invariant
                k <= total,
                memory@.len() == k,
                forall|m: int| 0 <= m < k ==> memory@[m] == 0,
            decreases total - k,
        {
            memory.push(0);
            k = k + 1;
        }
        InstanceManager {
            instances_: Vec::new(),
            memory_: memory,
            num_frames_: num_frames,
            max_objects_: max_objects,
        }
    }

    /// Registers an instance of `mesh_id` bound through `descriptor_set` and returns its
    /// identifier: the number of instances before. Its binding is its own block of the first
    /// buffer, at its identifier times the block size, where `update` writes it. Refused, with nothing changed, when the buffers have no room for
    /// another block.
    pub fn create_instance(&mut self, mesh_id: u64, descriptor_set: usize) -> (r: Result<
        u64,
        EngineError,
    >)
        requires
            old(self).wf(),
        ensures
            final(self).wf(),
            r.is_ok() <==> old(self)@.instances.len() < old(self)@.max_objects,
            r.is_err() ==> r == Err::<u64, EngineError>(EngineError::CapacityExceeded)
                && final(self)@ == old(self)@,
            r.is_ok() ==> {
                let (instance, info) = final(self)@.instances.last();
                &&& r.unwrap() == old(self)@.instances.len()
                &&& final(self)@ == (InstanceModel {
                    instances: old(self)@.instances.push((instance, info)),
                    ..old(self)@
                })
                &&& instance.mesh_id_ == mesh_id
                &&& instance.descriptor_set_ == descriptor_set
                &&& instance.is_dirty()
                &&& instance.block().model_.elements_@ == identity_elements()
                &&& instance.block().view_.elements_@ == identity_elements()
                &&& instance.block().projection_.elements_@ == identity_elements()
                &&& info == (DescriptorBufferInfo {
                    buffer_slot_: 0,
                    offset_: (r.unwrap() * UBO_SIZE) as u64,
                    range_: UBO_SIZE as u64,
                })
            },
    {
        if self.instances_.len() >= self.max_objects_ {
            return Err(EngineError::CapacityExceeded);
        }
        let instance_id = self.instances_.len() as u64;
        let instance = Instance::new(mesh_id, descriptor_set);
        let offset = self.instances_.len() * UBO_SIZE;
        let info = DescriptorBufferInfo {
            buffer_slot_: 0,
            offset_: offset as u64,
            range_: UBO_SIZE as u64,
        };
        self.instances_.push((instance, info));
        assert(self@.instances =~= old(self)@.instances.push(self@.instances.last()));
        Ok(instance_id)
    }

    /// Replaces the uniform block of instance `instance_id` and marks it changed.
    pub fn update_instance(&mut self, instance_id: u64, ubo: UBO) -> (r: Result<(), EngineError>)
        requires
            old(self).wf(),
        ensures
            final(self).wf(),
            r.is_ok() <==> instance_id < old(self)@.instances.len(),
            r.is_err() ==> r == Err::<(), EngineError>(EngineError::NotFound)
                && final(self)@ == old(self)@,
            r.is_ok() ==> {
                let (instance, info) = final(self)@.instances[instance_id as int];
                let (before, before_info) = old(self)@.instances[instance_id as int];
                &&& final(self)@ == (InstanceModel {
                    instances: old(self)@.instances.update(instance_id as int, (instance, info)),
                    ..old(self)@
                })
                &&& info == before_info
                &&& instance.mesh_id_ == before.mesh_id_
                &&& instance.descriptor_set_ == before.descriptor_set_
                &&& instance.block() == ubo
                &&& instance.is_dirty()
            },
    {
        if instance_id >= self.instances_.len() as u64 {
            return Err(EngineError::NotFound);
        }
        let i = instance_id as usize;
        let (mut instance, info) = self.instances_[i];
        instance.update(ubo);
        self.instances_.set(i, (instance, info));
        assert(self@.instances =~= old(self)@.instances.update(i as int, (instance, info)));
        Ok(())
    }

    /// Writes the block of every changed instance at its identifier's place in the buffer of
    /// `curr_frame`.
    pub fn update(&mut self, curr_frame: u32)
        requires
            old(self).wf(),
            curr_frame < old(self)@.num_frames,
        ensures
            final(self).wf(),
            final(self)@.instances == old(self)@.instances,
            final(self)@.num_frames == old(self)@.num_frames,
            final(self)@.max_objects == old(self)@.max_objects,
            final(self)@.memory.len() == old(self)@.memory.len(),
            forall|i: int, j: int|
                0 <= i < old(self)@.instances.len() && 0 <= j < UBO_SIZE ==> #[trigger] final(self)@.memory[old(self)@.base(curr_frame as nat) + i * UBO_SIZE + j]
                    == block_or_kept(old(self)@, curr_frame as nat, i, j),
            forall|k: int|
                0 <= k < old(self)@.memory.len() && !(old(self)@.base(curr_frame as nat) <= k
                    < old(self)@.base(curr_frame as nat) + old(self)@.instances.len() * UBO_SIZE)
                    ==> #[trigger] final(self)@.memory[k] == old(self)@.memory[k],
    {
        let ghost m0 = self@.memory;
        let ghost insts = self@.instances;
        let n = self.instances_.len();
        let bs = self.max_objects_ * UBO_SIZE;
        proof {
            assert((curr_frame + 1) * bs <= self.num_frames_ * bs) by (nonlinear_arith)
                requires
                    curr_frame + 1 <= self.num_frames_,
            ;
            assert((curr_frame + 1) * bs == curr_frame * bs + bs) by (nonlinear_arith);
        }
        let base = (curr_frame as usize) * bs;
        assert(n * UBO_SIZE <= bs) by (nonlinear_arith)
            requires
                n <= self.max_objects_,
                bs == self.max_objects_ * UBO_SIZE,
        ;
        let mut i: usize = 0;
        while i < n
            invariant
                n == insts.len(),
                n * UBO_SIZE <= bs,
                bs == self.max_objects_ * UBO_SIZE,
                base + bs <= m0.len(),
                base == old(self)@.base(curr_frame as nat),
                m0.len() <= usize::MAX,
                m0 == old(self)@.memory,
                i <= n,
                self.instances_@ == insts,
                self.num_frames_ == old(self).num_frames_,
                self.max_objects_ == old(self).max_objects_,
                self.memory_@.len() == m0.len(),
                forall|a: int, j: int|
                    0 <= a < i && 0 <= j < UBO_SIZE ==> #[trigger] self.memory_@[base + a * UBO_SIZE
                        + j] == if insts[a].0.is_dirty() {
                        insts[a].0.block().bytes()[j]
                    } else {
                        m0[base + a * UBO_SIZE + j]
                    },
                forall|k: int|
                    0 <= k < m0.len() && !(base <= k < base + i * UBO_SIZE) ==> #[trigger] self.memory_@[k]
                        == m0[k],
            decreases n - i,
        {
            let (instance, _) = self.instances_[i];
            if instance.dirty_ {
                let bytes = instance.ubo_.to_bytes();
                let start = base + i * UBO_SIZE;
                let ghost before = self.memory_@;
                write_at(&mut self.memory_, start, &bytes);
                proof {
                    assert forall|k: int| 0 <= k < m0.len() && !(start <= k < start + UBO_SIZE)
                        implies #[trigger] self.memory_@[k] == before[k] by {
                        if k < start {
                            assert(self.memory_@[k] == before.subrange(0, start as int)[k]);
                        } else {
                            assert(self.memory_@[k] == before.subrange(
                                start + UBO_SIZE,
                                before.len() as int,
                            )[k - start - UBO_SIZE]);
                        }
                    }
                    assert forall|j: int| 0 <= j < UBO_SIZE implies #[trigger] self.memory_@[start
                        + j] == bytes@[j] by {
                        assert(self.memory_@[start + j] == (before.subrange(0, start as int)
                            + bytes@)[start + j]);
                    }
                }
            }
            proof {
                assert forall|a: int, j: int|
                    0 <= a < i + 1 && 0 <= j < UBO_SIZE implies #[trigger] self.memory_@[base + a
                    * UBO_SIZE + j] == if insts[a].0.is_dirty() {
                    insts[a].0.block().bytes()[j]
                } else {
                    m0[base + a * UBO_SIZE + j]
                } by {
                    if a == i && !insts[a].0.is_dirty() {
                        assert(!(base <= base + a * UBO_SIZE + j < base + i * UBO_SIZE));
                    }
                }
            }
            i = i + 1;
        }
    }

    /// All instances with their bindings, in identifier order.
    pub fn get_instances(&self) -> (r: Vec<(Instance, DescriptorBufferInfo)>)
        ensures
            r@ == self@.instances,
    {
        let mut r: Vec<(Instance, DescriptorBufferInfo)> = Vec::new();
        let mut i: usize = 0;
        while i < self.instances_.len()
            invariant
                i <= self.instances_@.len(),
                r@ == self.instances_@.subrange(0, i as int),
            decreases self.instances_@.len() - i,
        {
            r.push(self.instances_[i]);
            i = i + 1;
            assert(r@ =~= self.instances_@.subrange(0, i as int));
        }
        assert(self.instances_@.subrange(0, i as int) =~= self.instances_@);
        r
    }

    /// `size` bytes of the buffer of `frame`, from `offset` on.
    pub fn read_back(&self, frame: u32, offset: usize, size: usize) -> (r: Vec<u8>)
        requires
            self.wf(),
            frame < self@.num_frames,
            offset + size <= self@.buffer_size(),
        ensures
            r@ == self@.memory.subrange(
                self@.base(frame as nat) + offset,
                self@.base(frame as nat) + offset + size,
            ),
    {
        let bs = self.max_objects_ * UBO_SIZE;
        proof {
            assert((frame + 1) * bs <= self.num_frames_ * bs) by (nonlinear_arith)
                requires
                    frame + 1 <= self.num_frames_,
            ;
            assert((frame + 1) * bs == frame * bs + bs) by (nonlinear_arith);
        }
        let start = (frame as usize) * bs + offset;
        let mut r: Vec<u8> = Vec::new();
        let mut k: usize = 0;
        while k < size
            invariant
                k <= size,
                start + size <= self.memory_@.len(),
                self.memory_@.len() <= usize::MAX,
                r@ == self.memory_@.subrange(start as int, start + k),
            decreases size - k,
        {
            r.push(self.memory_[start + k]);
            k = k + 1;
            assert(r@ =~= self.memory_@.subrange(start as int, start + k));
        }
        r
    }
}

} // verus!
