//! The command ring: pushing command TRBs and routing their
//! completion events to the task that issued them.
//!
//! Each pushed command arms a one-shot listener keyed by the physical
//! address of the command TRB; the completion event names that
//! address, and delivering it resolves the waiting task.

use vstd::prelude::*;

use crate::usb::ring::{push_tr, set_deque_tr, ProducerRing};
use crate::usb::runtime::{Listeners, OneshotSlot};
use crate::usb::trb::UnknownTRB;
use crate::usb::xhci::{CommandCompletionTrb, XhciError};

verus! {

/// The command ring and the one-shot listeners of the commands in
/// flight.
pub struct CommandRing {
    pub ring: ProducerRing,
    pub listener: Listeners<CommandCompletionTrb>,
}

impl CommandRing {
    pub open spec fn wf(&self) -> bool {
        &&& self.ring.wf()
        &&& self.listener.wf()
    }
}

/// A fresh command ring of `size` entries at physical address
/// `base_addr`, with no command in flight. The caller programs the
/// controller's CRCR with the base address and ring-cycle-state 1.
pub fn init_command_ring(size: usize, base_addr: u64) -> (r: CommandRing)
    requires
        2 <= size,
        base_addr % 16 == 0,
        base_addr + 16 * size <= u64::MAX,
    ensures
        r.wf(),
        r.ring@.trbs.len() == size,
        r.ring@.enq == 0,
        r.ring@.deq == 0,
        r.ring@.cycle == true,
        r.ring@.base == base_addr,
        forall|k: u64| r.listener.lookup(k) is None,
{
    CommandRing { ring: ProducerRing::new(size, base_addr), listener: Listeners::new() }
}

impl CommandRing {
    /// Pushes a command TRB and arms a listener for its completion.
    /// On success the returned address both names the ring slot and
    /// keys the listener; the caller then rings doorbell 0. With no
    /// slot free the command is refused with `RingIsFull`.
    pub fn push_command(&mut self, trb: UnknownTRB) -> (r: Result<u64, XhciError>)
        requires
            old(self).wf(),
        ensures
            final(self).wf(),
            old(self).ring@.is_full() ==> (
                r == Err::<u64, XhciError>(XhciError::RingIsFull)
                && final(self).ring@ == old(self).ring@
                && final(self).listener.entries@ == old(self).listener.entries@
            ),
            !old(self).ring@.is_full() ==> (
                ({
                    let (m2, pr) = push_tr(old(self).ring@, trb);
                    &&& r == pr
                    &&& final(self).ring@ == m2
                    &&& final(self).listener.lookup(old(self).ring@.slot_addr(old(self).ring@.enq))
                        == Some(OneshotSlot::<CommandCompletionTrb>::Waiting)
                    &&& forall|k: u64|
                        k != old(self).ring@.slot_addr(old(self).ring@.enq)
                            ==> final(self).listener.lookup(k) == old(self).listener.lookup(k)
                })
            ),
    {
        let ptr = match self.ring.push(trb) {
            Ok(ptr) => ptr,
            Err(e) => {
                return Err(e);
            },
        };
        self.listener.register(ptr);
        Ok(ptr)
    }

    /// Routes a command completion event: the command ring's dequeue
    /// index moves past the completed command (when the reported
    /// address is one of this ring's slots), and the event is
    /// delivered to the listener armed at that address, if any.
    pub fn on_command_completion(&mut self, completion: CommandCompletionTrb) -> (delivered: bool)
        requires
            old(self).wf(),
        ensures
            final(self).wf(),
            ({
                let m = old(self).ring@;
                let p = completion.command_trb_pointer;
                let valid = m.base <= p && (p - m.base) % 16 == 0 && (p - m.base) / 16 <= m.trbs.len()
                    - 2;
                final(self).ring@ == (if valid {
                    set_deque_tr(m, p)
                } else {
                    m
                })
            }),
            delivered == (old(self).listener.lookup(completion.command_trb_pointer)
                == Some(OneshotSlot::<CommandCompletionTrb>::Waiting)),
            delivered ==> final(self).listener.lookup(completion.command_trb_pointer)
                == Some(OneshotSlot::Delivered(completion)),
            forall|k: u64|
                k != completion.command_trb_pointer ==> final(self).listener.lookup(k) == old(
                    self,
                ).listener.lookup(k),
            !delivered ==> final(self).listener.entries@ == old(self).listener.entries@,
    {
        let p = completion.command_trb_pointer;
        let base = self.ring.get_buf_ptr();
        let size = self.ring.size();
        if base <= p && (p - base) % 16 == 0 && (p - base) / 16 <= (size - 2) as u64 {
            self.ring.set_deque_ptr(p);
        }
        self.listener.deliver(p, completion)
    }

    /// Resolves the await on the command pushed at `key`: the
    /// completion event once it has arrived, nothing before that.
    pub fn take_completion(&mut self, key: u64) -> (r: Option<CommandCompletionTrb>)
        requires
            old(self).wf(),
        ensures
            final(self).wf(),
            final(self).ring@ == old(self).ring@,
            match old(self).listener.lookup(key) {
                Some(OneshotSlot::Delivered(v)) => r == Some(v) && final(self).listener.lookup(key)
                    is None && forall|k: u64|
                    k != key ==> final(self).listener.lookup(k) == old(self).listener.lookup(k),
                _ => r is None && final(self).listener.entries@ == old(self).listener.entries@,
            },
    {
        self.listener.take(key)
    }
}

} // verus!
