//! The bounded message queue between interrupt context and the main
//! event loop, and the two message kinds it carries: an xHCI
//! interrupt happened, or a software timer fired.

use vstd::prelude::*;

use vstd::arithmetic::div_mod::{lemma_mod_self_0, lemma_small_mod};

verus! {

#[derive(Clone, Copy, Debug, PartialEq, Eq, Structural)]
pub enum Message {
    Xhci,
    TimerTimeout(u64),
}

/// An index into a ring buffer of length `n`, reduced after adding an
/// offset smaller than `n`.
pub open spec fn wrap_index(p: int, n: int) -> int {
    if p < n {
        p
    } else {
        p - n
    }
}

/// Bounded FIFO ring of messages. Interrupt handlers push, the main
/// loop pops; a push onto a full queue is refused and the message is
/// lost, which the callers accept.
pub struct MessageQueue {
    pub data: Vec<Message>,
    pub read_pos: usize,
    pub write_pos: usize,
    pub cnt: usize,
}

impl MessageQueue {
    pub open spec fn capacity(&self) -> nat {
        self.data@.len()
    }

    pub open spec fn wf(&self) -> bool {
        &&& self.data@.len() >= 1
        &&& (self.read_pos as int) < self.data@.len()
        &&& (self.write_pos as int) < self.data@.len()
        &&& self.cnt <= self.data@.len()
        &&& self.write_pos == wrap_index(self.read_pos + self.cnt, self.data@.len() as int)
    }

    /// The queued messages, oldest first.
    pub open spec fn contents(&self) -> Seq<Message> {
        Seq::new(
            self.cnt as nat,
            |i: int| self.data@[wrap_index(self.read_pos + i, self.data@.len() as int)],
        )
    }

    pub fn new(capacity: usize) -> (r: Self)
        requires
            capacity >= 1,
        ensures
            r.wf(),
            r.capacity() == capacity,
            r.contents() == Seq::<Message>::empty(),
    {
        let mut data: Vec<Message> = Vec::new();
        let mut i: usize = 0;
        while i < capacity
            invariant
                i <= capacity,
                data@.len() == i,
            decreases capacity - i,
        {
            data.push(Message::Xhci);
            i = i + 1;
        }
        let r = MessageQueue { data, read_pos: 0, write_pos: 0, cnt: 0 };
        proof {
            assert(r.contents() =~= Seq::<Message>::empty());
        }
        r
    }

    /// Appends `msg`, or refuses it when the queue is full.
    pub fn push(&mut self, msg: Message) -> (r: Result<(), ()>)
        requires
            old(self).wf(),
        ensures
            final(self).wf(),
            final(self).capacity() == old(self).capacity(),
            old(self).contents().len() == old(self).capacity() ==> (
                r == Err::<(), ()>(()) && *final(self) == *old(self)
            ),
            old(self).contents().len() < old(self).capacity() ==> (
                r == Ok::<(), ()>(())
                && final(self).contents() == old(self).contents().push(msg)
            ),
    {
        if self.cnt == self.data.len() {
            return Err(());
        }

        self.cnt = self.cnt + 1;
        let n = self.data.len();
        self.data.set(self.write_pos, msg);
        proof {
            if self.write_pos + 1 < n {
                lemma_small_mod((self.write_pos + 1) as nat, n as nat);
            } else {
                lemma_mod_self_0(n as int);
            }
        }
        self.write_pos = (self.write_pos + 1) % n;
        proof {
            assert(self.contents() =~= old(self).contents().push(msg));
        }
        Ok(())
    }

    /// Removes and returns the oldest message, if any.
    pub fn pop(&mut self) -> (r: Option<Message>)
        requires
            old(self).wf(),
        ensures
            final(self).wf(),
            final(self).capacity() == old(self).capacity(),
            old(self).contents().len() == 0 ==> (
                r == None::<Message> && *final(self) == *old(self)
            ),
            old(self).contents().len() > 0 ==> (
                r == Some(old(self).contents()[0])
                && final(self).contents() == old(self).contents().drop_first()
            ),
    {
        if self.cnt == 0 {
            return None;
        }

        self.cnt = self.cnt - 1;
        let n = self.data.len();
        let msg = self.data[self.read_pos];
        proof {
            if self.read_pos + 1 < n {
                lemma_small_mod((self.read_pos + 1) as nat, n as nat);
            } else {
                lemma_mod_self_0(n as int);
            }
        }
        self.read_pos = (self.read_pos + 1) % n;
        proof {
            assert(self.contents() =~= old(self).contents().drop_first());
        }
        Some(msg)
    }

    /// How many messages are waiting.
    pub fn len(&self) -> (r: usize)
        ensures
            r == self.contents().len(),
    {
        self.cnt
    }
}

/// The idle decision of the kernel event loop: with no message
/// waiting and no timer ticks accumulated, the loop re-enables
/// interrupts and halts until one arrives.
pub fn should_idle(events: &MessageQueue, timer_elapsed: u64) -> (r: bool)
    ensures
        r == (events.contents().len() == 0 && timer_elapsed == 0),
{
    events.len() == 0 && timer_elapsed == 0
}

} // verus!
