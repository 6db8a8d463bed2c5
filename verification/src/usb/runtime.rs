//! The cooperative runtime under the xHCI driver: a FIFO channel with
//! a parked waker, a registry of one-shot completion slots keyed by
//! TRB address, a broadcast latch, and the executor's task queue.
//!
//! The runtime is single-threaded: tasks suspend only at explicit
//! await points, so each primitive is a plain value that the executor
//! and the interrupt-driven drain take turns updating. Wakers are
//! carried as opaque task tokens; waking a token means re-enqueueing
//! that task outside the library.

use vstd::prelude::*;

verus! {

/// Mathematical state of a channel: the queued values, oldest first,
/// and the parked waker of a receiver that found the queue empty.
#[verifier::ext_equal]
pub ghost struct ChannelModel<T> {
    pub msgs: Seq<T>,
    pub waker: Option<u64>,
}

/// Sending appends and hands the parked waker back to be woken.
pub open spec fn send_tr<T>(m: ChannelModel<T>, value: T) -> ChannelModel<T> {
    ChannelModel { msgs: m.msgs.push(value), waker: None }
}

/// Receiving takes the oldest value, if any.
pub open spec fn recv_tr<T>(m: ChannelModel<T>) -> (ChannelModel<T>, Option<T>) {
    if m.msgs.len() == 0 {
        (m, None)
    } else {
        (ChannelModel { msgs: m.msgs.drop_first(), ..m }, Some(m.msgs[0]))
    }
}

/// A multi-producer single-consumer FIFO channel. One send wakes the
/// receiver that parked its waker here while the queue was empty.
pub struct Channel<T> {
    pub queue: Vec<T>,
    pub waker: Option<u64>,
}

impl<T> View for Channel<T> {
    type V = ChannelModel<T>;

    open spec fn view(&self) -> ChannelModel<T> {
        ChannelModel { msgs: self.queue@, waker: self.waker }
    }
}

impl<T> Channel<T> {
    pub fn new() -> (r: Self)
        ensures
            r@.msgs == Seq::<T>::empty(),
            r@.waker is None,
    {
        Channel { queue: Vec::new(), waker: None }
    }

    /// Appends `value`; the returned token, if any, is the parked
    /// receiver to wake.
    pub fn send(&mut self, value: T) -> (woken: Option<u64>)
        ensures
            final(self)@ == send_tr(old(self)@, value),
            woken == old(self)@.waker,
    {
        self.queue.push(value);
        let w = self.waker.take();
        w
    }

    /// Takes the oldest value without blocking.
    pub fn receive(&mut self) -> (r: Option<T>)
        ensures
            (final(self)@, r) == recv_tr(old(self)@),
    {
        if self.queue.len() == 0 {
            return None;
        }
        let v = self.queue.remove(0);
        Some(v)
    }

    /// One poll of the receive future: either the oldest value, or
    /// the queue is empty and `waker` is parked to be woken by the
    /// next send.
    pub fn poll_receive(&mut self, waker: u64) -> (r: Option<T>)
        ensures
            old(self)@.msgs.len() > 0 ==> (final(self)@, r) == recv_tr(old(self)@),
            old(self)@.msgs.len() == 0 ==> (
                r is None
                && final(self)@ == (ChannelModel { waker: Some(waker), ..old(self)@ })
            ),
    {
        if self.queue.len() == 0 {
            self.waker = Some(waker);
            return None;
        }
        let v = self.queue.remove(0);
        Some(v)
    }

    pub fn has_content(&self) -> (r: bool)
        ensures
            r == (self@.msgs.len() > 0),
    {
        self.queue.len() > 0
    }
}

/// Channel FIFO: on an empty channel, `send(a); send(b)` followed by
/// two receives yields `a` first and `b` second, leaving the channel
/// empty again.
pub proof fn lemma_channel_fifo<T>(m: ChannelModel<T>, a: T, b: T)
    requires
        m.msgs.len() == 0,
    ensures
        ({
            let m2 = send_tr(send_tr(m, a), b);
            let (m3, r1) = recv_tr(m2);
            let (m4, r2) = recv_tr(m3);
            r1 == Some(a) && r2 == Some(b) && m4.msgs.len() == 0
        }),
{
    let m2 = send_tr(send_tr(m, a), b);
    assert(m2.msgs =~= seq![a, b]);
    let (m3, r1) = recv_tr(m2);
    assert(m3.msgs =~= seq![b]);
    let (m4, r2) = recv_tr(m3);
    assert(m4.msgs =~= Seq::<T>::empty());
}

/// A one-shot completion slot: armed and waiting for its event, or
/// holding the delivered event until the waiting task takes it.
#[derive(Clone, Copy, Debug, PartialEq, Eq, Structural)]
pub enum OneshotSlot<T> {
    Waiting,
    Delivered(T),
}

/// The routing table of one-shot listeners, keyed by the physical
/// address of the TRB whose completion they await.
pub struct Listeners<T> {
    pub entries: Vec<(u64, OneshotSlot<T>)>,
}

/// What the table holds at `key`.
pub open spec fn spec_lookup<T>(s: Seq<(u64, OneshotSlot<T>)>, key: u64) -> Option<OneshotSlot<T>>
    decreases s.len(),
{
    if s.len() == 0 {
        None
    } else if s[0].0 == key {
        Some(s[0].1)
    } else {
        spec_lookup(s.drop_first(), key)
    }
}

pub open spec fn unique_keys<T>(s: Seq<(u64, OneshotSlot<T>)>) -> bool {
    forall|i: int, j: int| 0 <= i < j < s.len() ==> s[i].0 != s[j].0
}

impl<T> Listeners<T> {
    pub open spec fn wf(&self) -> bool {
        unique_keys(self.entries@)
    }

    pub open spec fn lookup(&self, key: u64) -> Option<OneshotSlot<T>> {
        spec_lookup(self.entries@, key)
    }

    pub fn new() -> (r: Self)
        ensures
            r.wf(),
            forall|k: u64| r.lookup(k) is None,
    {
        let r = Listeners { entries: Vec::new() };
        r
    }

    fn find(&self, key: u64) -> (r: Option<usize>)
        requires
            self.wf(),
        ensures
            match r {
                Some(i) => i < self.entries@.len() && self.entries@[i as int].0 == key,
                None => self.lookup(key) is None,
            },
    {
        let mut i: usize = 0;
        let n = self.entries.len();
        while i < n
            invariant
                i <= n,
                n == self.entries@.len(),
                forall|j: int| 0 <= j < i ==> self.entries@[j].0 != key,
            decreases n - i,
        {
            if self.entries[i].0 == key {
                return Some(i);
            }
            i = i + 1;
        }
        proof {
            lemma_lookup_absent(self.entries@, key);
        }
        None
    }

    /// Arms a fresh one-shot slot at `key`. A stale entry under the
    /// same key (a ring slot being reused) is replaced.
    pub fn register(&mut self, key: u64)
        requires
            old(self).wf(),
        ensures
            final(self).wf(),
            final(self).lookup(key) == Some(OneshotSlot::<T>::Waiting),
            forall|k: u64| k != key ==> final(self).lookup(k) == old(self).lookup(k),
    {
        let found = self.find(key);
        let ghost s0 = self.entries@;
        match found {
            Some(i) => {
                self.entries.set(i, (key, OneshotSlot::Waiting));
                proof {
                    lemma_lookup_after_set(s0, i as int, key, OneshotSlot::<T>::Waiting);
                }
            },
            None => {
                self.entries.push((key, OneshotSlot::Waiting));
                proof {
                    lemma_lookup_after_push(s0, key, OneshotSlot::<T>::Waiting);
                }
            },
        }
    }

    /// Delivers `value` into the slot armed at `key`; reports whether
    /// a listener was waiting there. An event nobody listens for is
    /// dropped, as the driver does.
    pub fn deliver(&mut self, key: u64, value: T) -> (delivered: bool)
        requires
            old(self).wf(),
        ensures
            final(self).wf(),
            delivered == (old(self).lookup(key) == Some(OneshotSlot::<T>::Waiting)),
            delivered ==> (
                final(self).lookup(key) == Some(OneshotSlot::Delivered(value))
                && forall|k: u64| k != key ==> final(self).lookup(k) == old(self).lookup(k)
            ),
            !delivered ==> *final(self) == *old(self),
    {
        let found = self.find(key);
        let ghost s0 = self.entries@;
        match found {
            Some(i) => {
                let waiting = match &self.entries[i].1 {
                    OneshotSlot::Waiting => true,
                    OneshotSlot::Delivered(_) => false,
                };
                if waiting {
                    self.entries.set(i, (key, OneshotSlot::Delivered(value)));
                    proof {
                        lemma_lookup_at_index(s0, i as int);
                        lemma_lookup_after_set(s0, i as int, key, OneshotSlot::Delivered(value));
                    }
                    true
                } else {
                    proof {
                        lemma_lookup_at_index(s0, i as int);
                    }
                    false
                }
            },
            None => false,
        }
    }

    /// Takes a delivered event out of the slot at `key`, resolving
    /// the waiting task; nothing happens while the slot still waits.
    pub fn take(&mut self, key: u64) -> (r: Option<T>)
        requires
            old(self).wf(),
        ensures
            final(self).wf(),
            match old(self).lookup(key) {
                Some(OneshotSlot::Delivered(v)) => r == Some(v) && final(self).lookup(key) is None
                    && forall|k: u64| k != key ==> final(self).lookup(k) == old(self).lookup(k),
                _ => r is None && *final(self) == *old(self),
            },
    {
        let found = self.find(key);
        let ghost s0 = self.entries@;
        match found {
            Some(i) => {
                let delivered = match &self.entries[i].1 {
                    OneshotSlot::Waiting => false,
                    OneshotSlot::Delivered(_) => true,
                };
                if delivered {
                    let entry = self.entries.remove(i);
                    proof {
                        lemma_lookup_at_index(s0, i as int);
                        lemma_lookup_after_remove(s0, i as int);
                    }
                    match entry.1 {
                        OneshotSlot::Delivered(v) => Some(v),
                        OneshotSlot::Waiting => None,
                    }
                } else {
                    proof {
                        lemma_lookup_at_index(s0, i as int);
                    }
                    None
                }
            },
            None => None,
        }
    }
}

proof fn lemma_lookup_absent<T>(s: Seq<(u64, OneshotSlot<T>)>, key: u64)
    requires
        forall|j: int| 0 <= j < s.len() ==> s[j].0 != key,
    ensures
        spec_lookup(s, key) is None,
    decreases s.len(),
{
    if s.len() > 0 {
        assert(forall|j: int| 0 <= j < s.drop_first().len() ==> s.drop_first()[j] == s[j + 1]);
        lemma_lookup_absent(s.drop_first(), key);
    }
}

/// In a table with unique keys, the entry at index `i` is what lookup
/// finds for its key.
proof fn lemma_lookup_at_index<T>(s: Seq<(u64, OneshotSlot<T>)>, i: int)
    requires
        unique_keys(s),
        0 <= i < s.len(),
    ensures
        spec_lookup(s, s[i].0) == Some(s[i].1),
    decreases s.len(),
{
    if i > 0 {
        let rest = s.drop_first();
        assert(forall|j: int| 0 <= j < rest.len() ==> rest[j] == s[j + 1]);
        lemma_lookup_at_index(rest, i - 1);
    }
}

proof fn lemma_lookup_after_set<T>(s: Seq<(u64, OneshotSlot<T>)>, i: int, key: u64, v: OneshotSlot<T>)
    requires
        unique_keys(s),
        0 <= i < s.len(),
        s[i].0 == key,
    ensures
        unique_keys(s.update(i, (key, v))),
        spec_lookup(s.update(i, (key, v)), key) == Some(v),
        forall|k: u64| k != key ==> spec_lookup(s.update(i, (key, v)), k) == spec_lookup(s, k),
    decreases s.len(),
{
    let s2 = s.update(i, (key, v));
    if i == 0 {
        assert forall|k: u64| k != key implies spec_lookup(s2, k) == spec_lookup(s, k) by {
            assert(s2.drop_first() =~= s.drop_first());
        }
    } else {
        let rest = s.drop_first();
        assert(forall|j: int| 0 <= j < rest.len() ==> rest[j] == s[j + 1]);
        lemma_lookup_after_set(rest, i - 1, key, v);
        assert(s2.drop_first() =~= rest.update(i - 1, (key, v)));
        assert(s2[0] == s[0]);
        assert(s[0].0 != key);
        assert forall|k: u64| k != key implies spec_lookup(s2, k) == spec_lookup(s, k) by {
            if s[0].0 != k {
                assert(spec_lookup(s2, k) == spec_lookup(s2.drop_first(), k));
                assert(spec_lookup(s, k) == spec_lookup(rest, k));
            }
        }
    }
}

proof fn lemma_lookup_after_push<T>(s: Seq<(u64, OneshotSlot<T>)>, key: u64, v: OneshotSlot<T>)
    requires
        unique_keys(s),
        spec_lookup(s, key) is None,
    ensures
        unique_keys(s.push((key, v))),
        spec_lookup(s.push((key, v)), key) == Some(v),
        forall|k: u64| k != key ==> spec_lookup(s.push((key, v)), k) == spec_lookup(s, k),
    decreases s.len(),
{
    lemma_absent_means_no_key(s, key);
    let s2 = s.push((key, v));
    if s.len() == 0 {
        assert(s2.drop_first() =~= s);
    } else {
        let rest = s.drop_first();
        assert(forall|j: int| 0 <= j < rest.len() ==> rest[j] == s[j + 1]);
        lemma_lookup_after_push(rest, key, v);
        assert(s2.drop_first() =~= rest.push((key, v)));
        assert(s2[0] == s[0]);
        assert forall|k: u64| k != key implies spec_lookup(s2, k) == spec_lookup(s, k) by {
            if s[0].0 != k {
                assert(spec_lookup(s2, k) == spec_lookup(s2.drop_first(), k));
                assert(spec_lookup(s, k) == spec_lookup(rest, k));
            }
        }
    }
}

proof fn lemma_absent_means_no_key<T>(s: Seq<(u64, OneshotSlot<T>)>, key: u64)
    requires
        spec_lookup(s, key) is None,
    ensures
        forall|j: int| 0 <= j < s.len() ==> s[j].0 != key,
    decreases s.len(),
{
    if s.len() > 0 {
        let rest = s.drop_first();
        lemma_absent_means_no_key(rest, key);
        assert forall|j: int| 0 <= j < s.len() implies s[j].0 != key by {
            if j > 0 {
                assert(rest[j - 1] == s[j]);
            }
        }
    }
}

proof fn lemma_lookup_after_remove<T>(s: Seq<(u64, OneshotSlot<T>)>, i: int)
    requires
        unique_keys(s),
        0 <= i < s.len(),
    ensures
        unique_keys(s.remove(i)),
        spec_lookup(s.remove(i), s[i].0) is None,
        forall|k: u64| k != s[i].0 ==> spec_lookup(s.remove(i), k) == spec_lookup(s, k),
    decreases s.len(),
{
    let s2 = s.remove(i);
    if i == 0 {
        assert(s2 =~= s.drop_first());
        assert forall|j: int| 0 <= j < s2.len() implies #[trigger] s2[j].0 != s[0].0 by {
            assert(s2[j] == s[j + 1]);
        }
        lemma_lookup_absent(s2, s[0].0);
        assert forall|k: u64| k != s[0].0 implies spec_lookup(s2, k) == spec_lookup(s, k) by {
            assert(spec_lookup(s, k) == spec_lookup(s.drop_first(), k));
        }
    } else {
        let rest = s.drop_first();
        assert(forall|j: int| 0 <= j < rest.len() ==> rest[j] == s[j + 1]);
        lemma_lookup_after_remove(rest, i - 1);
        assert(s2.drop_first() =~= rest.remove(i - 1));
        assert(s2[0] == s[0]);
        assert(s[i].0 != s[0].0);
        assert forall|k: u64| k != s[i].0 implies spec_lookup(s2, k) == spec_lookup(s, k) by {
            if s[0].0 != k {
                assert(spec_lookup(s2, k) == spec_lookup(s2.drop_first(), k));
                assert(spec_lookup(s, k) == spec_lookup(rest, k));
            }
        }
        assert(spec_lookup(s2, s[i].0) is None) by {
            assert(rest[i - 1] == s[i]);
            assert(spec_lookup(s2, s[i].0) == spec_lookup(s2.drop_first(), s[i].0));
        }
    }
}

/// Mathematical state of the broadcast latch.
#[verifier::ext_equal]
pub ghost struct BroadcastModel {
    pub flag: bool,
    pub wakers: Seq<u64>,
}

/// One poll of a latch future: ready once the flag is set, otherwise
/// the waker parks.
pub open spec fn broadcast_poll_tr(m: BroadcastModel, waker: u64) -> (BroadcastModel, bool) {
    if m.flag {
        (m, true)
    } else {
        (BroadcastModel { wakers: m.wakers.push(waker), ..m }, false)
    }
}

/// A broadcast latch: one send sets the flag forever and wakes every
/// parked waiter; every later await resolves at once.
pub struct BroadcastChannel {
    pub flag: bool,
    pub wakers: Vec<u64>,
}

impl View for BroadcastChannel {
    type V = BroadcastModel;

    open spec fn view(&self) -> BroadcastModel {
        BroadcastModel { flag: self.flag, wakers: self.wakers@ }
    }
}

impl BroadcastChannel {
    pub fn new() -> (r: Self)
        ensures
            r@.flag == false,
            r@.wakers == Seq::<u64>::empty(),
    {
        BroadcastChannel { flag: false, wakers: Vec::new() }
    }

    /// Sets the flag and drains the parked wakers; the caller wakes
    /// every returned token.
    pub fn send(&mut self) -> (woken: Vec<u64>)
        ensures
            final(self)@.flag == true,
            final(self)@.wakers == Seq::<u64>::empty(),
            woken@ == old(self)@.wakers,
    {
        self.flag = true;
        let mut drained: Vec<u64> = Vec::new();
        core::mem::swap(&mut drained, &mut self.wakers);
        drained
    }

    /// One poll of a latch future.
    pub fn poll(&mut self, waker: u64) -> (ready: bool)
        ensures
            (final(self)@, ready) == broadcast_poll_tr(old(self)@, waker),
    {
        if self.flag {
            true
        } else {
            self.wakers.push(waker);
            false
        }
    }
}

/// The iterated latch poll: `n` polls in a row.
pub open spec fn broadcast_polls_tr(m: BroadcastModel, wakers: Seq<u64>) -> BroadcastModel
    decreases wakers.len(),
{
    if wakers.len() == 0 {
        m
    } else {
        broadcast_polls_tr(broadcast_poll_tr(m, wakers[0]).0, wakers.drop_first())
    }
}

/// Broadcast idempotence: once the flag is set, arbitrarily many
/// awaits all resolve immediately — every poll reports ready and the
/// latch never changes, with no further send.
pub proof fn lemma_broadcast_idempotent(m: BroadcastModel, wakers: Seq<u64>)
    requires
        m.flag,
    ensures
        broadcast_polls_tr(m, wakers) == m,
        forall|w: u64| #[trigger] broadcast_poll_tr(m, w).1 == true,
    decreases wakers.len(),
{
    if wakers.len() > 0 {
        lemma_broadcast_idempotent(m, wakers.drop_first());
    }
}

/// Reported by the executor when its queue holds no runnable task.
#[derive(Debug, PartialEq, Eq, Structural)]
pub struct NoMoreTask;

/// The executor's share of the runtime: the queue of runnable task
/// tokens. Polling the tasks themselves happens outside the library;
/// a waker re-enqueues its task here.
pub struct Executor {
    pub task_queue: Channel<u64>,
}

impl Executor {
    pub fn new() -> (r: Self)
        ensures
            r.task_queue@.msgs == Seq::<u64>::empty(),
    {
        Executor { task_queue: Channel::new() }
    }

    /// Enqueues a runnable task token.
    pub fn spawn(&mut self, task: u64)
        ensures
            final(self).task_queue@ == send_tr(old(self).task_queue@, task),
    {
        let _ = self.task_queue.send(task);
    }

    /// Picks the next runnable task, oldest first.
    pub fn next_task(&mut self) -> (r: Result<u64, NoMoreTask>)
        ensures
            old(self).task_queue@.msgs.len() == 0 ==> (
                r == Err::<u64, NoMoreTask>(NoMoreTask)
                && final(self).task_queue@ == old(self).task_queue@
            ),
            old(self).task_queue@.msgs.len() > 0 ==> (
                r == Ok::<u64, NoMoreTask>(old(self).task_queue@.msgs[0])
                && (final(self).task_queue@, Some(old(self).task_queue@.msgs[0]))
                    == recv_tr(old(self).task_queue@)
            ),
    {
        match self.task_queue.receive() {
            Some(task) => Ok(task),
            None => Err(NoMoreTask),
        }
    }

    pub fn has_next_task(&self) -> (r: bool)
        ensures
            r == (self.task_queue@.msgs.len() > 0),
    {
        self.task_queue.has_content()
    }
}

} // verus!
