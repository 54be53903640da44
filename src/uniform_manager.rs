//! One uniform buffer per frame slot, each with room for the transforms of a fixed number of
//! instances. Every frame rewrites the transforms of all instances into its slot's buffer.
use vstd::prelude::*;
use crate::error::EngineError;
use crate::scene::Instance;
use crate::bytes::lemma_words_bytes_len;
use crate::vertex::{TRANSFORM_SIZE, mat4_to_bytes};

verus! {

/// The part of a uniform buffer that one descriptor binds.
#[derive(Clone, Copy, Debug, PartialEq, Eq, Structural)]
pub struct DescriptorBufferInfo {
    /// The frame slot whose uniform buffer is bound.
    pub buffer_slot_: u32,
    pub offset_: u64,
    pub range_: u64,
}

/// The state of a uniform manager: the bytes of all slot buffers, slot after slot.
pub ghost struct UniformModel {
    pub memory: Seq<u8>,
    pub num_frames: nat,
    pub max_instances: nat,
}

impl UniformModel {
    /// Bytes in the buffer of one slot.
    pub open spec fn buffer_size(self) -> int {
        self.max_instances * TRANSFORM_SIZE
    }

    /// Where the buffer of slot `frame` starts.
    pub open spec fn base(self, frame: nat) -> int {
        frame * self.buffer_size()
    }

    /// The bytes of the buffer of slot `frame`.
    pub open spec fn frame_bytes(self, frame: nat) -> Seq<u8> {
        self.memory.subrange(self.base(frame), self.base(frame) + self.buffer_size())
    }

    pub open spec fn wf(self) -> bool {
        self.memory.len() == self.num_frames * self.buffer_size()
    }
}

pub struct UniformManager {
    memory_: Vec<u8>,
    num_frames_: usize,
    max_instances_: usize,
    buffer_size_: usize,
}

impl View for UniformManager {
    type V = UniformModel;

    closed spec fn view(&self) -> UniformModel {
        UniformModel {
            memory: self.memory_@,
            num_frames: self.num_frames_ as nat,
            max_instances: self.max_instances_ as nat,
        }
    }
}

/// The descriptor of the transform slot `i` in the buffer of slot `frame`.
pub open spec fn slot_info(frame: u32, i: int) -> DescriptorBufferInfo {
    DescriptorBufferInfo {
        buffer_slot_: frame,
        offset_: (i * TRANSFORM_SIZE) as u64,
        range_: TRANSFORM_SIZE as u64,
    }
}

/// `after` holds the transforms of `instances` one after the other from the start of the buffer
/// of slot `frame`, and every other byte as `before` held it.
pub open spec fn writes_transforms(
    before: UniformModel,
    frame: nat,
    instances: Seq<Instance>,
    after: UniformModel,
) -> bool {
    let base = before.base(frame);
    &&& after.num_frames == before.num_frames
    &&& after.max_instances == before.max_instances
    &&& after.memory.len() == before.memory.len()
    &&& forall|i: int, j: int|
        0 <= i < instances.len() && 0 <= j < TRANSFORM_SIZE ==> #[trigger] after.memory[base + i
            * TRANSFORM_SIZE + j] == instances[i].transform_.bytes()[j]
    &&& forall|k: int|
        0 <= k < before.memory.len() && !(base <= k < base + instances.len() * TRANSFORM_SIZE)
            ==> #[trigger] after.memory[k] == before.memory[k]
}

impl UniformManager {
    /// The buffers fill the memory exactly, and the memory fits in the address space.
    pub closed spec fn wf(&self) -> bool {
        &&& self@.wf()
        &&& self.buffer_size_ == self.max_instances_ * TRANSFORM_SIZE
        &&& self.memory_@.len() <= usize::MAX
    }

    /// Writes the transform of instance `i` of `instances` at offset `i` times the transform
    /// size in the buffer of slot `curr_frame`, and returns the descriptor of each, in the order
    /// of `instances`. Refused, with nothing changed, when there is no slot `curr_frame`
    /// (`NotFound`) or when there are more instances than a buffer has room for
    /// (`CapacityExceeded`).
    pub fn update_uniforms(&mut self, curr_frame: u32, instances: &Vec<Instance>) -> (r: Result<
        Vec<DescriptorBufferInfo>,
        EngineError,
    >)
        requires
            old(self).wf(),
        ensures
            final(self).wf(),
            final(self)@.wf(),
            r.is_ok() <==> curr_frame < old(self)@.num_frames && instances@.len()
                <= old(self)@.max_instances,
            r.is_err() ==> final(self)@ == old(self)@,
            curr_frame >= old(self)@.num_frames ==> r == Err::<Vec<DescriptorBufferInfo>, EngineError>(
                EngineError::NotFound,
            ),
            curr_frame < old(self)@.num_frames && instances@.len() > old(self)@.max_instances ==> r
                == Err::<Vec<DescriptorBufferInfo>, EngineError>(EngineError::CapacityExceeded),
            r.is_ok() ==> writes_transforms(old(self)@, curr_frame as nat, instances@, final(self)@),
            r.is_ok() ==> r.unwrap()@.len() == instances@.len() && forall|i: int|
                0 <= i < instances@.len() ==> #[trigger] r.unwrap()@[i] == slot_info(curr_frame, i),
    {
        if curr_frame as usize >= self.num_frames_ {
            return Err(EngineError::NotFound);
        }
        if instances.len() > self.max_instances_ {
            return Err(EngineError::CapacityExceeded);
        }
        let ghost before = self@;
        let n = instances.len();
        proof {
            assert((curr_frame + 1) * self.buffer_size_ <= self.num_frames_ * self.buffer_size_)
                by (nonlinear_arith)
                requires
                    curr_frame + 1 <= self.num_frames_,
            ;
            assert(n * TRANSFORM_SIZE <= self.buffer_size_) by (nonlinear_arith)
                requires
                    n <= self.max_instances_,
                    self.buffer_size_ == self.max_instances_ * TRANSFORM_SIZE,
            ;
            assert((curr_frame + 1) * self.buffer_size_ == curr_frame * self.buffer_size_
                + self.buffer_size_) by (nonlinear_arith);
        }
        let base = (curr_frame as usize) * self.buffer_size_;
        assert(base == before.base(curr_frame as nat));
        let mut infos: Vec<DescriptorBufferInfo> = Vec::new();
        let mut i: usize = 0;
        while i < n
            invariant
                n == instances@.len(),
                i <= n,
                base == before.base(curr_frame as nat),
                base + n * TRANSFORM_SIZE <= self.memory_@.len(),
                self.memory_@.len() <= usize::MAX,
                self.memory_@.len() == before.memory.len(),
                self.num_frames_ == before.num_frames,
                self.max_instances_ == before.max_instances,
                self.buffer_size_ == old(self).buffer_size_,
                forall|a: int, j: int|
                    0 <= a < i && 0 <= j < TRANSFORM_SIZE ==> #[trigger] self.memory_@[base + a
                        * TRANSFORM_SIZE + j] == instances@[a].transform_.bytes()[j],
                forall|k: int|
                    0 <= k < before.memory.len() && !(base <= k < base + i * TRANSFORM_SIZE)
                        ==> #[trigger] self.memory_@[k] == before.memory[k],
                infos@.len() == i,
                forall|a: int| 0 <= a < i ==> #[trigger] infos@[a] == slot_info(curr_frame, a),
            decreases n - i,
        {
            let bytes = mat4_to_bytes(&instances[i].transform_);
            let start = base + i * TRANSFORM_SIZE;
            let mut j: usize = 0;
            while j < TRANSFORM_SIZE
                invariant
                    i < n,
                    n == instances@.len(),
                    start == base + i * TRANSFORM_SIZE,
                    base + n * TRANSFORM_SIZE <= self.memory_@.len(),
                    self.memory_@.len() <= usize::MAX,
                    bytes@ == instances@[i as int].transform_.bytes(),
                    bytes@.len() == TRANSFORM_SIZE,
                    j <= TRANSFORM_SIZE,
                    self.memory_@.len() == before.memory.len(),
                    self.num_frames_ == before.num_frames,
                    self.max_instances_ == before.max_instances,
                    self.buffer_size_ == old(self).buffer_size_,
                    forall|a: int, m: int|
                        0 <= a < i && 0 <= m < TRANSFORM_SIZE ==> #[trigger] self.memory_@[base
                            + a * TRANSFORM_SIZE + m] == instances@[a].transform_.bytes()[m],
                    forall|m: int| 0 <= m < j ==> #[trigger] self.memory_@[start + m] == bytes@[m],
                    forall|k: int|
                        0 <= k < before.memory.len() && !(base <= k < start + j)
                            ==> #[trigger] self.memory_@[k] == before.memory[k],
                decreases TRANSFORM_SIZE - j,
            {
                self.memory_.set(start + j, bytes[j]);
                j = j + 1;
            }
            assert forall|a: int, m: int|
                0 <= a < i + 1 && 0 <= m < TRANSFORM_SIZE implies #[trigger] self.memory_@[base + a
                * TRANSFORM_SIZE + m] == instances@[a].transform_.bytes()[m] by {
                if a == i {
                    assert(self.memory_@[start + m] == bytes@[m]);
                }
            }
            infos.push(
                DescriptorBufferInfo {
                    buffer_slot_: curr_frame,
                    offset_: (i * TRANSFORM_SIZE) as u64,
                    range_: TRANSFORM_SIZE as u64,
                },
            );
            i = i + 1;
        }
        Ok(infos)
    }

    /// `size` bytes of the buffer of slot `frame`, from `offset` on.
    pub fn read_back(&self, frame: u32, offset: usize, size: usize) -> (r: Vec<u8>)
        requires
            self.wf(),
            frame < self@.num_frames,
            offset + size <= self@.buffer_size(),
        ensures
            r@ == self@.frame_bytes(frame as nat).subrange(offset as int, offset + size),
    {
        proof {
            assert((frame + 1) * self.buffer_size_ <= self.num_frames_ * self.buffer_size_)
                by (nonlinear_arith)
                requires
                    frame + 1 <= self.num_frames_,
            ;
            assert((frame + 1) * self.buffer_size_ == frame * self.buffer_size_
                + self.buffer_size_) by (nonlinear_arith);
        }
        let start = (frame as usize) * self.buffer_size_ + offset;
        let mut r: Vec<u8> = Vec::new();
        let mut k: usize = 0;
        while k < size
            invariant
                k <= size,
                start + size <= self.memory_@.len(),
                self.memory_@.len() <= usize::MAX,
                start == self@.base(frame as nat) + offset,
                r@ == self.memory_@.subrange(start as int, start + k),
            decreases size - k,
        {
            r.push(self.memory_[start + k]);
            k = k + 1;
            assert(r@ =~= self.memory_@.subrange(start as int, start + k));
        }
        assert(r@ =~= self@.frame_bytes(frame as nat).subrange(offset as int, offset + size));
        r
    }

    /// The number of frame slots.
    pub fn num_frames(&self) -> (r: usize)
        ensures
            r == self@.num_frames,
    {
        self.num_frames_
    }

    /// The number of transforms each buffer has room for.
    pub fn max_instances(&self) -> (r: usize)
        ensures
            r == self@.max_instances,
    {
        self.max_instances_
    }
    /// A manager with `num_frames` slots, each with room for `max_instances` transforms, all
    /// bytes zero.
    pub fn new(max_instances: usize, num_frames: usize) -> (r: UniformManager)
        requires
            max_instances * TRANSFORM_SIZE <= usize::MAX,
            num_frames * (max_instances * TRANSFORM_SIZE) <= usize::MAX,
        ensures
            r.wf(),
            r@.wf(),
            r@.num_frames == num_frames,
            r@.max_instances == max_instances,
            forall|k: int| 0 <= k < r@.memory.len() ==> r@.memory[k] == 0,
    {
        let buffer_size = max_instances * TRANSFORM_SIZE;
        let total = num_frames * buffer_size;
        let mut memory: Vec<u8> = Vec::new();
        let mut k: usize = 0;
        while k < total
            invariant
                k <= total,
                memory@.len() == k,
                forall|m: int| 0 <= m < k ==> memory@[m] == 0,
            decreases total - k,
        {
            memory.push(0);
            k = k + 1;
        }
        UniformManager {
            memory_: memory,
            num_frames_: num_frames,
            max_instances_: max_instances,
            buffer_size_: buffer_size,
        }
    }
}


/// After the transforms of `instances` are written for slot `frame`, reading that slot's
/// buffer back at offset `i` times the transform size gives the bytes of the transform of
/// instance `i`, for every instance.
pub proof fn lemma_uniform_read_back(
    before: UniformModel,
    frame: nat,
    instances: Seq<Instance>,
    after: UniformModel,
)
    requires
        before.wf(),
        frame < before.num_frames,
        instances.len() <= before.max_instances,
        writes_transforms(before, frame, instances, after),
    ensures
        forall|i: int|
            0 <= i < instances.len() ==> #[trigger] after.frame_bytes(frame).subrange(
                i * TRANSFORM_SIZE,
                i * TRANSFORM_SIZE + TRANSFORM_SIZE,
            ) == instances[i].transform_.bytes(),
{
    let bs = before.buffer_size();
    assert((frame + 1) * bs <= before.num_frames * bs) by (nonlinear_arith)
        requires
            frame + 1 <= before.num_frames,
            bs >= 0,
    ;
    assert((frame + 1) * bs == frame * bs + bs) by (nonlinear_arith);
    assert(instances.len() * TRANSFORM_SIZE <= bs) by (nonlinear_arith)
        requires
            instances.len() <= before.max_instances,
            bs == before.max_instances * TRANSFORM_SIZE,
    ;
    assert forall|i: int| 0 <= i < instances.len() implies #[trigger] after.frame_bytes(
        frame,
    ).subrange(i * TRANSFORM_SIZE, i * TRANSFORM_SIZE + TRANSFORM_SIZE)
        == instances[i].transform_.bytes() by {
        lemma_words_bytes_len(instances[i].transform_.elements_@);
        let got = after.frame_bytes(frame).subrange(
            i * TRANSFORM_SIZE,
            i * TRANSFORM_SIZE + TRANSFORM_SIZE,
        );
        assert forall|j: int| 0 <= j < TRANSFORM_SIZE implies got[j]
            == instances[i].transform_.bytes()[j] by {
            assert(after.memory[before.base(frame) + i * TRANSFORM_SIZE + j]
                == instances[i].transform_.bytes()[j]);
        }
        assert(got =~= instances[i].transform_.bytes());
    }
}

} // verus!
