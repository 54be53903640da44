//! The lights of a renderer and their uniform buffers, one per swapchain image. Each update
//! writes every light, in identifier order, from the start of one buffer.
use vstd::prelude::*;
use crate::bytes::{push_words, words_bytes, lemma_words_bytes_len, write_at};
use crate::error::EngineError;
use crate::uniform_manager::DescriptorBufferInfo;

verus! {

/// Bytes taken by one light: two vectors of four 32-bit components.
pub const LIGHT_SIZE: usize = 32;

/// Default number of lights.
pub const MAX_LIGHTS: usize = 100;

/// A light: position and color, each four single-precision bit patterns.
#[derive(Clone, Copy, Debug)]
pub struct LightUBO {
    pub position_: [u32; 4],
    pub color_: [u32; 4],
}

impl LightUBO {
    /// The bytes of the light as its uniform buffer holds them.
    pub open spec fn bytes(&self) -> Seq<u8> {
        words_bytes(self.position_@ + self.color_@)
    }

    /// A light at the origin, black.
    pub fn zero() -> (r: LightUBO)
        ensures
            r.position_@ == seq![0u32, 0u32, 0u32, 0u32],
            r.color_@ == seq![0u32, 0u32, 0u32, 0u32],
    {
        let r = LightUBO { position_: [0, 0, 0, 0], color_: [0, 0, 0, 0] };
        assert(r.position_@ =~= seq![0u32, 0u32, 0u32, 0u32]);
        assert(r.color_@ =~= seq![0u32, 0u32, 0u32, 0u32]);
        r
    }

    /// The bytes of the light as its uniform buffer holds them.
    pub fn to_bytes(&self) -> (r: Vec<u8>)
        ensures
            r@ == self.bytes(),
            r@.len() == LIGHT_SIZE,
    {
        let words: [u32; 8] = [
            self.position_[0],
            self.position_[1],
            self.position_[2],
            self.position_[3],
            self.color_[0],
            self.color_[1],
            self.color_[2],
            self.color_[3],
        ];
        assert(words@ =~= self.position_@ + self.color_@);
        let mut r: Vec<u8> = Vec::new();
        push_words(&mut r, words.as_slice());
        proof {
            lemma_words_bytes_len(words@);
        }
        r
    }
}

/// The bytes of `lights`, one after the other.
pub open spec fn lights_bytes(lights: Seq<LightUBO>) -> Seq<u8>
    decreases lights.len(),
{
    if lights.len() == 0 {
        Seq::empty()
    } else {
        lights_bytes(lights.drop_last()) + lights.last().bytes()
    }
}

proof fn lemma_lights_bytes_len(lights: Seq<LightUBO>)
    ensures
        lights_bytes(lights).len() == LIGHT_SIZE * lights.len(),
    decreases lights.len(),
{
    if lights.len() > 0 {
        lemma_lights_bytes_len(lights.drop_last());
        lemma_words_bytes_len(lights.last().position_@ + lights.last().color_@);
    }
}

/// The state of a scene manager.
pub ghost struct LightsModel {
    pub lights: Seq<LightUBO>,
    pub memory: Seq<u8>,
    pub num_frames: nat,
    pub max_lights: nat,
}

impl LightsModel {
    pub open spec fn buffer_size(self) -> int {
        self.max_lights * LIGHT_SIZE
    }

    pub open spec fn base(self, frame: nat) -> int {
        frame * self.buffer_size()
    }
}

pub struct SceneManager {
    lights_: Vec<LightUBO>,
    memory_: Vec<u8>,
    num_frames_: usize,
    max_lights_: usize,
}

impl View for SceneManager {
    type V = LightsModel;

    closed spec fn view(&self) -> LightsModel {
        LightsModel {
            lights: self.lights_@,
            memory: self.memory_@,
            num_frames: self.num_frames_ as nat,
            max_lights: self.max_lights_ as nat,
        }
    }
}

impl SceneManager {
    pub open spec fn wf(&self) -> bool {
        &&& self@.memory.len() == self@.num_frames * self@.buffer_size()
        &&& self@.lights.len() <= self@.max_lights
        &&& self@.memory.len() <= usize::MAX
        &&& self@.buffer_size() <= usize::MAX
    }

    /// A manager without lights whose `num_frames` buffers each have room for `max_lights`
    /// lights, all bytes zero.
    pub fn new(max_lights: usize, num_frames: usize) -> (r: SceneManager)
        requires
            max_lights * LIGHT_SIZE <= usize::MAX,
            num_frames * (max_lights * LIGHT_SIZE) <= usize::MAX,
        ensures
            r.wf(),
            r@.lights.len() == 0,
            r@.num_frames == num_frames,
            r@.max_lights == max_lights,
            forall|k: int| 0 <= k < r@.memory.len() ==> r@.memory[k] == 0,
    {
        let total = num_frames * (max_lights * LIGHT_SIZE);
        let mut memory: Vec<u8> = Vec::new();
        let mut k: usize = 0;
        while k < total
            invariant
                k <= total,
                memory@.len() == k,
                forall|m: int| 0 <= m < k ==> memory@[m] == 0,
            decreases total - k,
        {
            memory.push(0);
            k = k + 1;
        }
        SceneManager {
            lights_: Vec::new(),
            memory_: memory,
            num_frames_: num_frames,
            max_lights_: max_lights,
        }
    }

    /// Adds a black light at the origin and returns its identifier: the number of lights
    /// before. Refused, with nothing changed, when the buffers have no room for another light.
    pub fn create_light(&mut self) -> (r: Result<u64, EngineError>)
        requires
            old(self).wf(),
        ensures
            final(self).wf(),
            r.is_ok() <==> old(self)@.lights.len() < old(self)@.max_lights,
            r.is_err() ==> r == Err::<u64, EngineError>(EngineError::CapacityExceeded)
                && final(self)@ == old(self)@,
            r.is_ok() ==> r.unwrap() == old(self)@.lights.len() && final(self)@ == (LightsModel {
                lights: old(self)@.lights.push(final(self)@.lights.last()),
                ..old(self)@
            }) && final(self)@.lights.last().position_@ == seq![0u32, 0u32, 0u32, 0u32]
                && final(self)@.lights.last().color_@ == seq![0u32, 0u32, 0u32, 0u32],
    {
        if self.lights_.len() >= self.max_lights_ {
            return Err(EngineError::CapacityExceeded);
        }
        let light_id = self.lights_.len() as u64;
        self.lights_.push(LightUBO::zero());
        assert(self@.lights =~= old(self)@.lights.push(self@.lights.last()));
        Ok(light_id)
    }

    /// Replaces light `light_id`.
    pub fn set_light(&mut self, light_id: u64, light: LightUBO) -> (r: Result<(), EngineError>)
        requires
            old(self).wf(),
        ensures
            final(self).wf(),
            r.is_ok() <==> light_id < old(self)@.lights.len(),
            r.is_err() ==> r == Err::<(), EngineError>(EngineError::NotFound)
                && final(self)@ == old(self)@,
            r.is_ok() ==> final(self)@ == (LightsModel {
                lights: old(self)@.lights.update(light_id as int, light),
                ..old(self)@
            }),
    {
        if light_id >= self.lights_.len() as u64 {
            return Err(EngineError::NotFound);
        }
        self.lights_.set(light_id as usize, light);
        Ok(())
    }

    /// Light `light_id`, to change in place; `NotFound`, with nothing changed, when there is
    /// no such light.
    pub fn get_mut_light(&mut self, light_id: u64) -> (r: Result<&mut LightUBO, EngineError>)
        ensures
            r.is_ok() <==> light_id < old(self)@.lights.len(),
            match r {
                Ok(x) => {
                    &&& *x == old(self)@.lights[light_id as int]
                    &&& final(self)@ == (LightsModel {
                        lights: old(self)@.lights.update(light_id as int, *final(x)),
                        ..old(self)@
                    })
                },
                Err(e) => e == EngineError::NotFound && final(self)@ == old(self)@,
            },
    {
        let n = self.lights_.len();
        if light_id >= n as u64 {
            return Err(EngineError::NotFound);
        }
        Ok(&mut self.lights_[light_id as usize])
    }

    /// Light `light_id`.
    pub fn get_light(&self, light_id: u64) -> (r: Result<LightUBO, EngineError>)
        ensures
            r.is_ok() <==> light_id < self@.lights.len(),
            r.is_ok() ==> r.unwrap() == self@.lights[light_id as int],
            r.is_err() ==> r == Err::<LightUBO, EngineError>(EngineError::NotFound),
    {
        if light_id >= self.lights_.len() as u64 {
            return Err(EngineError::NotFound);
        }
        Ok(self.lights_[light_id as usize])
    }

    /// Writes every light, in identifier order, from the start of the buffer of `curr_frame`.
    pub fn update(&mut self, curr_frame: u32)
        requires
            old(self).wf(),
            curr_frame < old(self)@.num_frames,
        ensures
            final(self).wf(),
            final(self)@ == (LightsModel {
                memory: old(self)@.memory.subrange(0, old(self)@.base(curr_frame as nat))
                    + lights_bytes(old(self)@.lights) + old(self)@.memory.subrange(
                    old(self)@.base(curr_frame as nat) + LIGHT_SIZE * old(self)@.lights.len(),
                    old(self)@.memory.len() as int,
                ),
                ..old(self)@
            }),
    {
        let ghost m0 = self@.memory;
        let ghost lights = self@.lights;
        let n = self.lights_.len();
        let bs = self.max_lights_ * LIGHT_SIZE;
        proof {
            assert((curr_frame + 1) * bs <= self.num_frames_ * bs) by (nonlinear_arith)
                requires
                    curr_frame + 1 <= self.num_frames_,
            ;
            assert((curr_frame + 1) * bs == curr_frame * bs + bs) by (nonlinear_arith);
        }
        let base = (curr_frame as usize) * bs;
        assert(n * LIGHT_SIZE <= bs) by (nonlinear_arith)
            requires
                n <= self.max_lights_,
                bs == self.max_lights_ * LIGHT_SIZE,
        ;
        let mut i: usize = 0;
        while i < n
            invariant
                n == lights.len(),
                n <= self.max_lights_,
                bs == self.max_lights_ * LIGHT_SIZE,
                base + bs <= m0.len(),
                n * LIGHT_SIZE <= bs,
                base == old(self)@.base(curr_frame as nat),
                m0.len() <= usize::MAX,
                i <= n,
                self.lights_@ == lights,
                self.num_frames_ == old(self).num_frames_,
                self.max_lights_ == old(self).max_lights_,
                self.memory_@ == m0.subrange(0, base as int) + lights_bytes(lights.take(i as int))
                    + m0.subrange(base + LIGHT_SIZE * i, m0.len() as int),
            decreases n - i,
        {
            proof {
                lemma_lights_bytes_len(lights.take(i as int));
                assert(lights.take(i as int + 1).drop_last() =~= lights.take(i as int));
            }
            let bytes = self.lights_[i].to_bytes();
            write_at(&mut self.memory_, base + LIGHT_SIZE * i, &bytes);
            proof {
                let pre = lights_bytes(lights.take(i as int));
                assert(self.memory_@ =~= m0.subrange(0, base as int) + lights_bytes(
                    lights.take(i as int + 1),
                ) + m0.subrange(base + LIGHT_SIZE * (i + 1), m0.len() as int));
            }
            i = i + 1;
        }
        assert(lights.take(n as int) =~= lights);
        proof {
            lemma_lights_bytes_len(lights);
        }
    }

    /// The binding of the lights: from the start of the first buffer, as many bytes as the
    /// lights take.
    pub fn get_descriptor_buffer_info(&self) -> (r: DescriptorBufferInfo)
        requires
            self.wf(),
        ensures
            r == (DescriptorBufferInfo {
                buffer_slot_: 0,
                offset_: 0,
                range_: (LIGHT_SIZE * self@.lights.len()) as u64,
            }),
    {
        DescriptorBufferInfo {
            buffer_slot_: 0,
            offset_: 0,
            range_: (LIGHT_SIZE as u64) * (self.lights_.len() as u64),
        }
    }

    /// `size` bytes of the buffer of `frame`, from `offset` on.
    pub fn read_back(&self, frame: u32, offset: usize, size: usize) -> (r: Vec<u8>)
        requires
            self.wf(),
            frame < self@.num_frames,
            offset + size <= self@.buffer_size(),
        ensures
            r@ == self@.memory.subrange(
                self@.base(frame as nat) + offset,
                self@.base(frame as nat) + offset + size,
            ),
    {
        let bs = self.max_lights_ * LIGHT_SIZE;
        proof {
            assert((frame + 1) * bs <= self.num_frames_ * bs) by (nonlinear_arith)
                requires
                    frame + 1 <= self.num_frames_,
            ;
            assert((frame + 1) * bs == frame * bs + bs) by (nonlinear_arith);
        }
        let start = (frame as usize) * bs + offset;
        let mut r: Vec<u8> = Vec::new();
        let mut k: usize = 0;
        while k < size
            invariant
                k <= size,
                start + size <= self.memory_@.len(),
                self.memory_@.len() <= usize::MAX,
                r@ == self.memory_@.subrange(start as int, start + k),
            decreases size - k,
        {
            r.push(self.memory_[start + k]);
            k = k + 1;
            assert(r@ =~= self.memory_@.subrange(start as int, start + k));
        }
        r
    }
}

/// Identifiers handed out by successive `create_light` calls on one manager strictly increase,
/// so none is handed out twice.
pub proof fn lemma_light_ids_increase(
    m0: LightsModel,
    id1: u64,
    m1: LightsModel,
    id2: u64,
)
    requires
        id1 == m0.lights.len(),
        m1.lights == m0.lights.push(m1.lights.last()),
        id2 == m1.lights.len(),
    ensures
        id1 < id2,
{
}

} // verus!
