//! The ring of frame slots that bounds how far the CPU runs ahead of the GPU. Each slot owns a
//! fence and two semaphores; a frame waits on its slot's fence before it submits on that slot.
use vstd::prelude::*;

verus! {

/// Default number of frames in flight.
pub const MAX_FRAMES_IN_FLIGHT: u32 = 2;

/// Submissions of all slots that have not been waited on yet.
pub open spec fn outstanding(pending: Seq<u32>) -> int
    decreases pending.len(),
{
    if pending.len() == 0 {
        0
    } else {
        outstanding(pending.drop_last()) + pending.last()
    }
}

/// The state of a ring: the slot of the next frame and, for each slot, the submissions made on
/// it and not waited on since.
pub ghost struct RingModel {
    pub current: nat,
    pub pending: Seq<u32>,
}

impl RingModel {
    /// The current slot is a slot, and no slot has more than one submission outstanding.
    pub open spec fn wf(self) -> bool {
        &&& self.current < self.pending.len()
        &&& forall|k: int| 0 <= k < self.pending.len() ==> #[trigger] self.pending[k] <= 1
    }

    /// The state after one frame cycle: wait on the current slot's fence, submit on that slot,
    /// move to the next slot.
    pub open spec fn cycled(self) -> RingModel {
        RingModel {
            current: ((self.current + 1) % self.pending.len()) as nat,
            pending: self.pending.update(self.current as int, 1),
        }
    }
}

pub struct FrameRing {
    current_frame_: u32,
    pending_: Vec<u32>,
}

impl View for FrameRing {
    type V = RingModel;

    closed spec fn view(&self) -> RingModel {
        RingModel { current: self.current_frame_ as nat, pending: self.pending_@ }
    }
}

impl FrameRing {
    pub open spec fn wf(&self) -> bool {
        &&& self@.wf()
        &&& self@.pending.len() <= u32::MAX
    }

    /// A ring of `size` slots, the first one current, nothing submitted.
    pub fn new(size: u32) -> (r: FrameRing)
        requires
            size > 0,
        ensures
            r.wf(),
            r@.current == 0,
            r@.pending == Seq::new(size as nat, |k: int| 0u32),
    {
        let mut pending: Vec<u32> = Vec::new();
        let mut k: u32 = 0;
        while k < size
            invariant
                k <= size,
                pending@ == Seq::new(k as nat, |m: int| 0u32),
            decreases size - k,
        {
            pending.push(0);
            k = k + 1;
            assert(pending@ =~= Seq::new(k as nat, |m: int| 0u32));
        }
        FrameRing { current_frame_: 0, pending_: pending }
    }

    /// The slot of the next frame.
    pub fn current_frame(&self) -> (r: u32)
        ensures
            r == self@.current,
    {
        self.current_frame_
    }

    /// The number of slots.
    pub fn size(&self) -> (r: u32)
        requires
            self.wf(),
        ensures
            r == self@.pending.len(),
    {
        self.pending_.len() as u32
    }

    /// One frame cycle: the fence of the current slot is waited on, which completes that slot's
    /// earlier submission; the frame is submitted on that slot; the next slot becomes current.
    /// Returns the slot used.
    pub fn cycle(&mut self) -> (slot: u32)
        requires
            old(self).wf(),
        ensures
            final(self).wf(),
            slot == old(self)@.current,
            final(self)@ == old(self)@.cycled(),
    {
        let slot = self.current_frame_;
        let s = slot as usize;
        self.pending_.set(s, 0);
        self.pending_.set(s, 1);
        let size = self.pending_.len() as u32;
        self.current_frame_ = (slot + 1) % size;
        assert(self.pending_@ =~= old(self)@.pending.update(s as int, 1));
        assert(self@ =~= old(self)@.cycled());
        slot
    }
}

proof fn lemma_outstanding_bound(pending: Seq<u32>)
    requires
        forall|k: int| 0 <= k < pending.len() ==> #[trigger] pending[k] <= 1,
    ensures
        0 <= outstanding(pending) <= pending.len(),
    decreases pending.len(),
{
    if pending.len() > 0 {
        let p = pending.drop_last();
        assert forall|k: int| 0 <= k < p.len() implies #[trigger] p[k] <= 1 by {
            assert(p[k] == pending[k]);
        }
        lemma_outstanding_bound(p);
    }
}

/// In every well-formed state, and so across any run of frame cycles from a new ring, the
/// submissions not yet completed by a fence wait number at most the number of slots.
pub proof fn lemma_frame_ring_bound(ring: RingModel)
    requires
        ring.wf(),
    ensures
        outstanding(ring.pending) <= ring.pending.len(),
        ring.cycled().wf(),
        outstanding(ring.cycled().pending) <= ring.pending.len(),
{
    lemma_outstanding_bound(ring.pending);
    let c = ring.cycled();
    assert forall|k: int| 0 <= k < c.pending.len() implies #[trigger] c.pending[k] <= 1 by {
        if k != ring.current {
            assert(c.pending[k] == ring.pending[k]);
        }
    }
    lemma_outstanding_bound(c.pending);
}

} // verus!
