//! The DMA ring protocol shared with the xHCI controller.
//!
//! A producer ring is a fixed array of TRBs whose last entry is a Link
//! TRB pointing back at the start. The producer writes each TRB with
//! its current cycle state and advances; when the enqueue index
//! reaches the Link slot it rewrites the Link's cycle bit, wraps to
//! the start and toggles its cycle state. The hardware consumes TRBs
//! whose cycle bit equals its own internal state, so one slot before
//! the dequeue index must stay unused to tell full from empty.
//!
//! A consumer (event) ring has the same layout without the Link: the
//! driver owns the dequeue side, and an entry whose cycle bit differs
//! from the consumer's state has not been written yet.

use vstd::prelude::*;

use crate::usb::trb::{trb_cycle_of, UnknownTRB};
use crate::usb::xhci::XhciError;

verus! {

/// Mathematical state of a producer ring.
#[verifier::ext_equal]
pub ghost struct RingModel {
    pub trbs: Seq<UnknownTRB>,
    pub cycle: bool,
    pub enq: int,
    pub deq: int,
    pub base: u64,
}

impl RingModel {
    pub open spec fn wf(self) -> bool {
        &&& self.trbs.len() >= 2
        &&& self.trbs.len() <= usize::MAX
        &&& 0 <= self.enq < self.trbs.len() - 1
        &&& 0 <= self.deq < self.trbs.len() - 1
        &&& self.base % 16 == 0
        &&& self.base + 16 * self.trbs.len() <= u64::MAX
    }

    /// The next slot after `p`, skipping the Link slot at the tail.
    pub open spec fn next(self, p: int) -> int {
        if p + 1 == self.trbs.len() - 1 {
            0
        } else {
            p + 1
        }
    }

    /// The ring refuses a push when the slot after the enqueue index
    /// is the dequeue index: one slot is sacrificed to detect full.
    pub open spec fn is_full(self) -> bool {
        self.next(self.enq) == self.deq
    }

    /// Physical address of slot `i`.
    pub open spec fn slot_addr(self, i: int) -> u64 {
        (self.base + 16 * i) as u64
    }
}

/// One push, as a transition on the model: the TRB is written at the
/// enqueue index with the producer's cycle state; if the write fills
/// the last data slot, the Link TRB's cycle bit is republished, the
/// enqueue index wraps to 0 and the cycle state toggles.
pub open spec fn push_tr(m: RingModel, trb: UnknownTRB) -> (RingModel, Result<u64, XhciError>) {
    if m.is_full() {
        (m, Err(XhciError::RingIsFull))
    } else {
        let written = m.trbs.update(m.enq, trb.spec_with_cycle(m.cycle));
        let addr = m.slot_addr(m.enq);
        if m.enq + 1 < m.trbs.len() - 1 {
            (RingModel { trbs: written, enq: m.enq + 1, ..m }, Ok(addr))
        } else {
            let link = m.trbs.len() - 1;
            (
                RingModel {
                    trbs: written.update(link, written[link].spec_with_cycle(m.cycle)),
                    enq: 0,
                    cycle: !m.cycle,
                    ..m
                },
                Ok(addr),
            )
        }
    }
}

/// Taking a completion reported at `ptr` moves the dequeue index one
/// past the slot that `ptr` names.
pub open spec fn set_deque_tr(m: RingModel, ptr: u64) -> RingModel {
    RingModel { deq: m.next((ptr - m.base) as int / 16), ..m }
}

pub struct ProducerRing {
    pub data: Vec<UnknownTRB>,
    pub cycle_state: bool,
    pub enque: usize,
    pub deque: usize,
    pub base_addr: u64,
}

impl View for ProducerRing {
    type V = RingModel;

    open spec fn view(&self) -> RingModel {
        RingModel {
            trbs: self.data@,
            cycle: self.cycle_state,
            enq: self.enque as int,
            deq: self.deque as int,
            base: self.base_addr,
        }
    }
}

impl ProducerRing {
    pub open spec fn wf(&self) -> bool {
        self@.wf()
    }

    /// A fresh ring of `size` entries whose TRBs will sit at physical
    /// address `base_addr`: zeroed, with the Link TRB at the tail
    /// pointing back at the base, producer cycle state 1.
    pub fn new(size: usize, base_addr: u64) -> (r: Self)
        requires
            2 <= size,
            base_addr % 16 == 0,
            base_addr + 16 * size <= u64::MAX,
        ensures
            r.wf(),
            r@.trbs.len() == size,
            r@.trbs[size - 1] == crate::usb::trb::spec_link_trb(base_addr),
            forall|i: int| 0 <= i < size - 1 ==> r@.trbs[i] == (UnknownTRB { d0: 0, d1: 0, d2: 0, d3: 0 }),
            r@.cycle == true,
            r@.enq == 0,
            r@.deq == 0,
            r@.base == base_addr,
    {
        let mut data: Vec<UnknownTRB> = Vec::new();
        let mut i: usize = 0;
        while i < size
            invariant
                i <= size,
                data@.len() == i,
                forall|j: int| 0 <= j < i ==> data@[j] == (UnknownTRB { d0: 0, d1: 0, d2: 0, d3: 0 }),
            decreases size - i,
        {
            data.push(UnknownTRB::zeroed());
            i = i + 1;
        }
        let link = crate::usb::trb::link_trb(base_addr);
        data.set(size - 1, link);
        ProducerRing { data, cycle_state: true, enque: 0, deque: 0, base_addr }
    }

    /// The slot after `ptr`, skipping the Link slot at the tail.
    pub fn next_ptr(&self, ptr: usize) -> (r: usize)
        requires
            self.wf(),
            ptr <= self.data@.len() - 2,
        ensures
            r == self@.next(ptr as int),
    {
        if ptr + 1 == self.data.len() - 1 {
            0
        } else {
            ptr + 1
        }
    }

    fn advance_enque_ptr(&mut self)
        requires
            old(self).wf(),
        ensures
            final(self).wf(),
            final(self).base_addr == old(self).base_addr,
            final(self).deque == old(self).deque,
            ({
                let o = old(self)@;
                if o.enq + 1 < o.trbs.len() - 1 {
                    final(self)@ == (RingModel { enq: o.enq + 1, ..o })
                } else {
                    final(self)@ == (RingModel {
                        trbs: o.trbs.update(
                            o.trbs.len() - 1,
                            o.trbs[o.trbs.len() - 1].spec_with_cycle(o.cycle),
                        ),
                        enq: 0,
                        cycle: !o.cycle,
                        ..o
                    })
                }
            }),
    {
        self.enque = self.enque + 1;
        if self.enque == self.data.len() - 1 {
            let cycle = self.cycle_state;
            let mut link = self.data[self.enque];
            link.set_cycle_bit(cycle);
            self.data.set(self.enque, link);
            self.enque = 0;
            self.cycle_state = !self.cycle_state;
        }
    }

    /// Writes `trb` with the current cycle state and advances, or
    /// refuses with `RingIsFull` when only the sacrificial slot is
    /// left. On success the returned address names the written slot.
    pub fn push(&mut self, trb: UnknownTRB) -> (r: Result<u64, XhciError>)
        requires
            old(self).wf(),
        ensures
            final(self).wf(),
            (final(self)@, r) == push_tr(old(self)@, trb),
            old(self)@.is_full() ==> *final(self) == *old(self),
    {
        if self.next_ptr(self.enque) == self.deque {
            return Err(XhciError::RingIsFull);
        }

        let mut t = trb;
        t.set_cycle_bit(self.cycle_state);
        self.data.set(self.enque, t);
        let ret_ptr: u64 = self.base_addr + (self.enque as u64) * 16;

        self.advance_enque_ptr();

        proof {
            assert(self@ =~= push_tr(old(self)@, trb).0);
        }
        Ok(ret_ptr)
    }

    /// Converts a completion pointer reported by the hardware back to
    /// a ring index and moves the dequeue index one past it.
    pub fn set_deque_ptr(&mut self, deque_ptr: u64)
        requires
            old(self).wf(),
            old(self).base_addr <= deque_ptr,
            (deque_ptr - old(self).base_addr) % 16 == 0,
            (deque_ptr - old(self).base_addr) / 16 <= old(self).data@.len() - 2,
        ensures
            final(self).wf(),
            final(self)@ == set_deque_tr(old(self)@, deque_ptr),
    {
        let quotient: u64 = (deque_ptr - self.base_addr) / 16;
        proof {
            assert(quotient <= self.data@.len() - 2);
        }
        let index: usize = quotient as usize;
        self.deque = self.next_ptr(index);
    }

    pub fn cycle_state(&self) -> (r: bool)
        ensures
            r == self@.cycle,
    {
        self.cycle_state
    }

    pub fn get_buf_ptr(&self) -> (r: u64)
        ensures
            r == self@.base,
    {
        self.base_addr
    }

    pub fn get_enque_ptr(&self) -> (r: u64)
        requires
            self.wf(),
        ensures
            r == self@.slot_addr(self@.enq),
    {
        self.base_addr + (self.enque as u64) * 16
    }

    pub fn size(&self) -> (r: usize)
        ensures
            r == self@.trbs.len(),
    {
        self.data.len()
    }
}

/// Mathematical state of a consumer ring.
#[verifier::ext_equal]
pub ghost struct ConsumerRingModel {
    pub trbs: Seq<UnknownTRB>,
    pub cycle: bool,
    pub deq: int,
    pub base: u64,
}

impl ConsumerRingModel {
    pub open spec fn wf(self) -> bool {
        &&& self.trbs.len() >= 1
        &&& self.trbs.len() <= usize::MAX
        &&& 0 <= self.deq < self.trbs.len()
        &&& self.base % 16 == 0
        &&& self.base + 16 * self.trbs.len() <= u64::MAX
    }

    /// The ring reads empty when the entry at the dequeue index does
    /// not carry the consumer's cycle state.
    pub open spec fn is_empty(self) -> bool {
        self.trbs[self.deq].cycle_bit_spec() != self.cycle
    }
}

/// One pop, as a transition on the model: advancing past the last
/// entry wraps to the start and toggles the consumer's cycle state.
pub open spec fn pop_tr(m: ConsumerRingModel) -> (ConsumerRingModel, Option<UnknownTRB>) {
    if m.is_empty() {
        (m, None)
    } else {
        let trb = m.trbs[m.deq];
        if m.deq + 1 < m.trbs.len() {
            (ConsumerRingModel { deq: m.deq + 1, ..m }, Some(trb))
        } else {
            (ConsumerRingModel { deq: 0, cycle: !m.cycle, ..m }, Some(trb))
        }
    }
}

/// The event ring as the driver consumes it. The hardware fills
/// entries; the driver pops those whose cycle bit matches its state.
pub struct ConsumerRing {
    pub data: Vec<UnknownTRB>,
    pub cycle_state: bool,
    pub deque: usize,
    pub base_addr: u64,
}

impl View for ConsumerRing {
    type V = ConsumerRingModel;

    open spec fn view(&self) -> ConsumerRingModel {
        ConsumerRingModel {
            trbs: self.data@,
            cycle: self.cycle_state,
            deq: self.deque as int,
            base: self.base_addr,
        }
    }
}

impl ConsumerRing {
    pub open spec fn wf(&self) -> bool {
        self@.wf()
    }

    /// A fresh event ring: zeroed entries (cycle bit 0 everywhere) and
    /// consumer cycle state 1, so it reads empty until the hardware
    /// writes its first event.
    pub fn new(size: usize, base_addr: u64) -> (r: Self)
        requires
            1 <= size,
            base_addr % 16 == 0,
            base_addr + 16 * size <= u64::MAX,
        ensures
            r.wf(),
            r@.trbs.len() == size,
            forall|i: int| 0 <= i < size ==> r@.trbs[i] == (UnknownTRB { d0: 0, d1: 0, d2: 0, d3: 0 }),
            r@.cycle == true,
            r@.deq == 0,
            r@.base == base_addr,
    {
        let mut data: Vec<UnknownTRB> = Vec::new();
        let mut i: usize = 0;
        while i < size
            invariant
                i <= size,
                data@.len() == i,
                forall|j: int| 0 <= j < i ==> data@[j] == (UnknownTRB { d0: 0, d1: 0, d2: 0, d3: 0 }),
            decreases size - i,
        {
            data.push(UnknownTRB::zeroed());
            i = i + 1;
        }
        ConsumerRing { data, cycle_state: true, deque: 0, base_addr }
    }

    pub fn deque_index(&self) -> (r: usize)
        ensures
            r == self@.deq,
    {
        self.deque
    }

    /// Reads the entry at the dequeue index; if its cycle bit differs
    /// from the consumer state the ring is empty and nothing changes.
    pub fn pop(&mut self) -> (r: Option<UnknownTRB>)
        requires
            old(self).wf(),
        ensures
            final(self).wf(),
            (final(self)@, r) == pop_tr(old(self)@),
            old(self)@.is_empty() ==> *final(self) == *old(self),
    {
        let trb = self.data[self.deque];

        if trb.cycle_bit() != self.cycle_state {
            return None;
        }

        self.deque = self.deque + 1;
        if self.deque == self.data.len() {
            self.deque = 0;
            self.cycle_state = !self.cycle_state;
        }

        proof {
            assert(self@ =~= pop_tr(old(self)@).0);
        }
        Some(trb)
    }

    pub fn cycle_state(&self) -> (r: bool)
        ensures
            r == self@.cycle,
    {
        self.cycle_state
    }

    pub fn get_buf_ptr(&self) -> (r: u64)
        ensures
            r == self@.base,
    {
        self.base_addr
    }

    pub fn size(&self) -> (r: usize)
        ensures
            r == self@.trbs.len(),
    {
        self.data.len()
    }

    /// Whether the entry at the dequeue index has been written by
    /// the hardware and waits to be popped.
    pub fn has_event(&self) -> (r: bool)
        requires
            self.wf(),
        ensures
            r == !self@.is_empty(),
    {
        self.data[self.deque].cycle_bit() == self.cycle_state
    }
}

/// The model state after pushing each TRB of `ts` in turn.
pub open spec fn pushes_tr(m: RingModel, ts: Seq<UnknownTRB>) -> RingModel
    decreases ts.len(),
{
    if ts.len() == 0 {
        m
    } else {
        pushes_tr(push_tr(m, ts[0]).0, ts.skip(1))
    }
}

/// While the dequeue index stays at 0 and the pushes stay short of
/// the sacrificial slot, every push lands: after `ts.len()` pushes the
/// enqueue index has advanced by exactly that much and nothing else
/// about the bookkeeping has moved.
pub proof fn lemma_pushes_advance(f: RingModel, ts: Seq<UnknownTRB>)
    requires
        f.wf(),
        f.deq == 0,
        f.enq + ts.len() <= f.trbs.len() - 2,
    ensures
        ({
            let m = pushes_tr(f, ts);
            &&& m.wf()
            &&& m.deq == 0
            &&& m.enq == f.enq + ts.len()
            &&& m.trbs.len() == f.trbs.len()
            &&& m.cycle == f.cycle
            &&& m.base == f.base
        }),
    decreases ts.len(),
{
    if ts.len() > 0 {
        lemma_pushes_advance(push_tr(f, ts[0]).0, ts.skip(1));
    }
}

/// Full detection: a fresh producer ring with `n` entries (one of
/// them the Link) accepts exactly `n - 2` TRBs; each of those pushes
/// succeeds, and the very next push is refused with `RingIsFull`.
pub proof fn lemma_full_detection(f: RingModel, ts: Seq<UnknownTRB>, extra: UnknownTRB)
    requires
        f.wf(),
        f.enq == 0,
        f.deq == 0,
        ts.len() == f.trbs.len() - 2,
    ensures
        forall|k: int|
            0 <= k < ts.len() ==> (#[trigger] push_tr(pushes_tr(f, ts.take(k)), ts[k]).1) matches Ok(_),
        push_tr(pushes_tr(f, ts), extra).1 == Err::<u64, XhciError>(XhciError::RingIsFull),
{
    assert forall|k: int|
        0 <= k < ts.len() implies (#[trigger] push_tr(pushes_tr(f, ts.take(k)), ts[k]).1) matches Ok(_) by {
        lemma_pushes_advance(f, ts.take(k));
    }
    lemma_pushes_advance(f, ts);
}

/// Cycle toggling: a successful push writes the TRB with the
/// producer's current cycle state, and the producer's cycle state
/// flips exactly when the push fills the last slot before the Link —
/// so the bits written across successive wraps run 1, then 0, then 1.
pub proof fn lemma_push_writes_cycle(m: RingModel, trb: UnknownTRB)
    requires
        m.wf(),
        !m.is_full(),
    ensures
        ({
            let (m2, r) = push_tr(m, trb);
            &&& r == Ok::<u64, XhciError>(m.slot_addr(m.enq))
            &&& m2.trbs[m.enq].cycle_bit_spec() == m.cycle
            &&& m2.cycle == (if m.enq + 1 == m.trbs.len() - 1 {
                !m.cycle
            } else {
                m.cycle
            })
        }),
{
    let d = trb.d3;
    assert(trb_cycle_of(d | 1)) by (bit_vector);
    assert(!trb_cycle_of(d & 0xffff_fffe)) by (bit_vector);
}

/// A freshly initialised event ring reads empty: every entry has
/// cycle bit 0 while the consumer's state is 1, so a pop returns
/// nothing and leaves the ring unchanged.
pub proof fn lemma_fresh_event_ring_reads_empty(m: ConsumerRingModel)
    requires
        m.wf(),
        m.cycle == true,
        forall|i: int| 0 <= i < m.trbs.len() ==> !m.trbs[i].cycle_bit_spec(),
    ensures
        m.is_empty(),
        pop_tr(m) == (m, None::<UnknownTRB>),
{
}

} // verus!
