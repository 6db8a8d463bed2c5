//! Software timers over the monotonic kernel tick.
//!
//! The manager keeps its timers ordered by timeout, earliest first.
//! Advancing the tick fires every timer whose timeout has passed: the
//! reserved task-timer value re-arms itself one period later and
//! reports to the caller, every other value is posted to the message
//! queue as `TimerTimeout`, in timeout order. The tick itself only
//! ever grows.

use vstd::prelude::*;

use crate::message::{Message, MessageQueue};

verus! {

/// Ticks per second of the kernel tick.
pub const TIMER_FREQ: u32 = 100;

/// The reserved timer value that drives the cooperative task switch.
pub const TASK_TIMER_VALUE: u64 = 0;

/// Period of the task timer in ticks: `TIMER_FREQ / 50`.
pub const TASK_TIMER_PERIOD: u64 = 2;

#[derive(Clone, Copy, Debug, PartialEq, Eq, Structural)]
pub struct Timer {
    pub timeout: u64,
    pub value: u64,
}

impl Timer {
    /// A timer fires only strictly after its timeout tick has passed.
    pub open spec fn is_over_spec(self, current_time: u64) -> bool {
        self.timeout < current_time
    }

    pub fn is_over(&self, current_time: u64) -> (r: bool)
        ensures
            r == self.is_over_spec(current_time),
    {
        self.timeout < current_time
    }
}

pub open spec fn sorted_by_timeout(s: Seq<Timer>) -> bool {
    forall|i: int, j: int| 0 <= i < j < s.len() ==> s[i].timeout <= s[j].timeout
}

/// Where a sorted insert of `t` lands: after every timer whose
/// timeout is not later than `t`'s.
pub open spec fn insert_index(s: Seq<Timer>, t: Timer) -> int
    decreases s.len(),
{
    if s.len() == 0 {
        0
    } else if s[0].timeout > t.timeout {
        0
    } else {
        1 + insert_index(s.drop_first(), t)
    }
}

pub open spec fn insert_sorted_spec(s: Seq<Timer>, t: Timer) -> Seq<Timer> {
    s.insert(insert_index(s, t), t)
}

/// `n` sorted inserts of the same timer.
pub open spec fn insert_n(s: Seq<Timer>, t: Timer, n: nat) -> Seq<Timer>
    decreases n,
{
    if n == 0 {
        s
    } else {
        insert_sorted_spec(insert_n(s, t, (n - 1) as nat), t)
    }
}

/// How many timers at the front of `s` have timed out at `current`.
pub open spec fn expired_count(s: Seq<Timer>, current: u64) -> int
    decreases s.len(),
{
    if s.len() == 0 {
        0
    } else if s[0].timeout >= current {
        0
    } else {
        1 + expired_count(s.drop_first(), current)
    }
}

/// How many of the timers in `p` carry the reserved task-timer value.
pub open spec fn task_count(p: Seq<Timer>) -> nat
    decreases p.len(),
{
    if p.len() == 0 {
        0
    } else {
        (if p[0].value == TASK_TIMER_VALUE {
            1nat
        } else {
            0nat
        }) + task_count(p.drop_first())
    }
}

/// The messages that firing the timers of `p` posts, in order: one
/// `TimerTimeout` per timer, except the task timer, which posts none.
pub open spec fn fired_messages(p: Seq<Timer>) -> Seq<Message>
    decreases p.len(),
{
    if p.len() == 0 {
        Seq::empty()
    } else if p[0].value == TASK_TIMER_VALUE {
        fired_messages(p.drop_first())
    } else {
        seq![Message::TimerTimeout(p[0].value)] + fired_messages(p.drop_first())
    }
}

pub proof fn lemma_insert_index_char(s: Seq<Timer>, t: Timer)
    ensures
        0 <= insert_index(s, t) <= s.len(),
        forall|i: int| 0 <= i < insert_index(s, t) ==> s[i].timeout <= t.timeout,
        insert_index(s, t) < s.len() ==> s[insert_index(s, t)].timeout > t.timeout,
    decreases s.len(),
{
    if s.len() > 0 && s[0].timeout <= t.timeout {
        let rest = s.drop_first();
        lemma_insert_index_char(rest, t);
        assert forall|i: int| 0 <= i < insert_index(s, t) implies s[i].timeout <= t.timeout by {
            if i > 0 {
                assert(rest[i - 1] == s[i]);
            }
        }
    }
}

pub proof fn lemma_insert_sorted_keeps_sorted(s: Seq<Timer>, t: Timer)
    requires
        sorted_by_timeout(s),
    ensures
        sorted_by_timeout(insert_sorted_spec(s, t)),
{
    lemma_insert_index_char(s, t);
    let idx = insert_index(s, t);
    let s2 = insert_sorted_spec(s, t);
    assert forall|i: int, j: int| 0 <= i < j < s2.len() implies s2[i].timeout <= s2[j].timeout by {
        if i < idx {
            assert(s2[i] == s[i]);
        } else if i > idx {
            assert(s2[i] == s[i - 1]);
        }
        if j < idx {
            assert(s2[j] == s[j]);
        } else if j > idx {
            assert(s2[j] == s[j - 1]);
        }
    }
}

pub proof fn lemma_task_count_push(p: Seq<Timer>, t: Timer)
    ensures
        task_count(p.push(t)) == task_count(p) + (if t.value == TASK_TIMER_VALUE {
            1nat
        } else {
            0nat
        }),
    decreases p.len(),
{
    if p.len() == 0 {
        assert(p.push(t).drop_first() =~= p);
    } else {
        assert(p.push(t).drop_first() =~= p.drop_first().push(t));
        lemma_task_count_push(p.drop_first(), t);
    }
}

pub proof fn lemma_fired_messages_push(p: Seq<Timer>, t: Timer)
    ensures
        fired_messages(p.push(t)) == fired_messages(p) + (if t.value == TASK_TIMER_VALUE {
            Seq::<Message>::empty()
        } else {
            seq![Message::TimerTimeout(t.value)]
        }),
    decreases p.len(),
{
    if p.len() == 0 {
        assert(p.push(t).drop_first() =~= p);
        assert(fired_messages(p.push(t)) =~= fired_messages(p) + (if t.value == TASK_TIMER_VALUE {
            Seq::<Message>::empty()
        } else {
            seq![Message::TimerTimeout(t.value)]
        }));
    } else {
        assert(p.push(t).drop_first() =~= p.drop_first().push(t));
        lemma_fired_messages_push(p.drop_first(), t);
        assert(fired_messages(p.push(t)) =~= fired_messages(p) + (if t.value == TASK_TIMER_VALUE {
            Seq::<Message>::empty()
        } else {
            seq![Message::TimerTimeout(t.value)]
        }));
    }
}

/// In a sorted timer list the timers that have timed out form exactly
/// the prefix counted by `expired_count`.
pub proof fn lemma_expired_count_char(s: Seq<Timer>, current: u64)
    requires
        sorted_by_timeout(s),
    ensures
        0 <= expired_count(s, current) <= s.len(),
        forall|i: int| 0 <= i < expired_count(s, current) ==> s[i].timeout < current,
        forall|i: int| expired_count(s, current) <= i < s.len() ==> s[i].timeout >= current,
    decreases s.len(),
{
    if s.len() > 0 {
        if s[0].timeout >= current {
            assert forall|i: int| 0 <= i < s.len() implies s[i].timeout >= current by {
                if i > 0 {
                    assert(s[0].timeout <= s[i].timeout);
                }
            }
        } else {
            let rest = s.drop_first();
            assert(sorted_by_timeout(rest)) by {
                assert forall|a: int, b: int|
                    0 <= a < b < rest.len() implies rest[a].timeout <= rest[b].timeout by {
                    assert(rest[a] == s[a + 1]);
                    assert(rest[b] == s[b + 1]);
                }
            }
            lemma_expired_count_char(rest, current);
            assert forall|i: int|
                0 <= i < expired_count(s, current) implies s[i].timeout < current by {
                if i > 0 {
                    assert(rest[i - 1] == s[i]);
                }
            }
            assert forall|i: int|
                expired_count(s, current) <= i < s.len() implies s[i].timeout >= current by {
                assert(rest[i - 1] == s[i]);
            }
        }
    }
}

/// The software-timer manager: the monotonic tick and the pending
/// timers, ordered by timeout.
pub struct TimerManager {
    pub tick: u64,
    pub timers: Vec<Timer>,
}

impl TimerManager {
    pub open spec fn wf(&self) -> bool {
        sorted_by_timeout(self.timers@)
    }

    pub fn new() -> (r: Self)
        ensures
            r.wf(),
            r.tick == 0,
            r.timers@ == Seq::<Timer>::empty(),
    {
        let timers: Vec<Timer> = Vec::new();
        Self { tick: 0, timers }
    }

    /// Inserts a timer at its place in timeout order, after any timer
    /// with the same timeout.
    pub fn add_timer(&mut self, timeout: u64, value: u64)
        requires
            old(self).wf(),
        ensures
            final(self).wf(),
            final(self).tick == old(self).tick,
            final(self).timers@ == insert_sorted_spec(old(self).timers@, Timer { timeout, value }),
    {
        let t = Timer { timeout, value };
        let ghost s = self.timers@;
        let mut i: usize = 0;
        while i < self.timers.len() && self.timers[i].timeout <= timeout
            invariant
                self.timers@ == s,
                self.tick == old(self).tick,
                i <= s.len(),
                forall|j: int| 0 <= j < i ==> s[j].timeout <= timeout,
            decreases s.len() - i,
        {
            i = i + 1;
        }
        proof {
            lemma_insert_index_char(s, t);
            let idx = insert_index(s, t);
            if i < idx {
                assert(s[i as int].timeout <= t.timeout);
                assert(i < s.len());
                assert(false);
            }
            if idx < i {
                assert(s[idx].timeout > t.timeout);
                assert(false);
            }
            lemma_insert_sorted_keeps_sorted(s, t);
        }
        self.timers.insert(i, t);
    }

    /// Advances the tick by `elapsed` and fires every timer whose
    /// timeout has passed. A fired task timer re-arms itself one
    /// period after the new tick and makes the result true; every
    /// other fired timer posts `TimerTimeout(value)` to `events`, in
    /// timeout order, until the queue is full (messages past that are
    /// dropped, as the callers accept).
    pub fn tick(&mut self, elapsed: u64, events: &mut MessageQueue) -> (task_timer_timeout: bool)
        requires
            old(self).wf(),
            old(events).wf(),
            old(self).tick + elapsed + TASK_TIMER_PERIOD <= u64::MAX,
        ensures
            final(self).wf(),
            final(events).wf(),
            final(events).capacity() == old(events).capacity(),
            final(self).tick == old(self).tick + elapsed,
            ({
                let current = (old(self).tick + elapsed) as u64;
                let s = old(self).timers@;
                let k = expired_count(s, current);
                let rearm = Timer {
                    timeout: (current + TASK_TIMER_PERIOD) as u64,
                    value: TASK_TIMER_VALUE,
                };
                let fired = fired_messages(s.take(k));
                let room = old(events).capacity() - old(events).contents().len();
                &&& task_timer_timeout == (task_count(s.take(k)) > 0)
                &&& final(self).timers@ == insert_n(s.skip(k), rearm, task_count(s.take(k)))
                &&& final(events).contents() == old(events).contents() + fired.take(
                    if fired.len() <= room {
                        fired.len() as int
                    } else {
                        room as int
                    },
                )
            }),
    {
        let ghost s = self.timers@;
        let ghost old_events = events.contents();
        let ghost room = old(events).capacity() - old(events).contents().len();
        let n0: usize = self.timers.len();
        proof {
            assert(s.len() == n0);
        }

        self.tick = self.tick + elapsed;
        let current = self.tick;
        let ghost k = expired_count(s, current);
        proof {
            lemma_expired_count_char(s, current);
        }

        let mut n_task: usize = 0;
        let ghost mut j: int = 0;

        while self.timers.len() > 0 && self.timers[0].is_over(current)
            invariant
                0 <= j <= s.len(),
                s.len() <= usize::MAX,
                self.timers@ == s.skip(j),
                self.tick == current,
                n_task == task_count(s.take(j)),
                n_task <= j,
                forall|i: int| 0 <= i < j ==> s[i].timeout < current,
                events.wf(),
                events.capacity() == old(events).capacity(),
                room == old(events).capacity() - old_events.len(),
                ({
                    let fired = fired_messages(s.take(j));
                    events.contents() == old_events + fired.take(
                        if fired.len() <= room {
                            fired.len() as int
                        } else {
                            room as int
                        },
                    )
                }),
            decreases s.len() - j,
        {
            let top = self.timers.remove(0);
            proof {
                assert(top == s[j]);
                assert(s.skip(j).remove(0) =~= s.skip(j + 1));
                assert(s.take(j + 1) =~= s.take(j).push(s[j]));
                lemma_task_count_push(s.take(j), s[j]);
                lemma_fired_messages_push(s.take(j), s[j]);
            }

            if top.value == TASK_TIMER_VALUE {
                n_task = n_task + 1;
                proof {
                    assert(fired_messages(s.take(j + 1)) =~= fired_messages(s.take(j)));
                }
            } else {
                let _ = events.push(Message::TimerTimeout(top.value));
                proof {
                    let fired_old = fired_messages(s.take(j));
                    let fired_new = fired_messages(s.take(j + 1));
                    let taken_old = if fired_old.len() <= room {
                        fired_old.len() as int
                    } else {
                        room as int
                    };
                    let taken_new = if fired_new.len() <= room {
                        fired_new.len() as int
                    } else {
                        room as int
                    };
                    assert(fired_new =~= fired_old.push(Message::TimerTimeout(s[j].value)));
                    assert(fired_new.take(taken_new) =~= if fired_old.len() < room {
                        fired_old.take(taken_old).push(Message::TimerTimeout(s[j].value))
                    } else {
                        fired_old.take(taken_old)
                    });
                }
            }
            proof {
                j = j + 1;
            }
        }

        proof {
            // the loop stopped exactly at the expired prefix
            if j < k {
                assert(s.skip(j).len() > 0);
                assert(s[j].timeout < current);
                assert(false);
            }
            if k < j {
                assert(s[k].timeout >= current);
                assert(false);
            }
            assert(sorted_by_timeout(s.skip(k))) by {
                assert forall|a: int, b: int|
                    0 <= a < b < s.skip(k).len() implies s.skip(k)[a].timeout
                    <= s.skip(k)[b].timeout by {
                    assert(s.skip(k)[a] == s[k + a]);
                    assert(s.skip(k)[b] == s[k + b]);
                }
            }
        }

        // Re-arm one task timer per fired task-timer instance, one
        // period after the new tick.
        let mut c: usize = 0;
        let rearm_timeout = current + TASK_TIMER_PERIOD;
        while c < n_task
            invariant
                c <= n_task,
                n_task == task_count(s.take(k)),
                self.tick == current,
                current == old(self).tick + elapsed,
                current + TASK_TIMER_PERIOD <= u64::MAX,
                rearm_timeout == current + TASK_TIMER_PERIOD,
                self.wf(),
                self.timers@ == insert_n(
                    s.skip(k),
                    Timer { timeout: rearm_timeout, value: TASK_TIMER_VALUE },
                    c as nat,
                ),
                events.wf(),
                events.capacity() == old(events).capacity(),
                ({
                    let fired = fired_messages(s.take(k));
                    events.contents() == old_events + fired.take(
                        if fired.len() <= room {
                            fired.len() as int
                        } else {
                            room as int
                        },
                    )
                }),
            decreases n_task - c,
        {
            self.add_timer(rearm_timeout, TASK_TIMER_VALUE);
            c = c + 1;
        }

        n_task > 0
    }
}

/// Timer ordering: starting from the freshly initialised timer state
/// (only the task timer, armed at one period), adding `(t1, v1)` and
/// then `(t2, v2)` with `t1 < t2` and letting the tick advance past
/// `t2` fires `TimerTimeout(v1)` strictly before `TimerTimeout(v2)` —
/// those two are the only messages posted, in that order.
pub proof fn lemma_timer_ordering(t1: u64, v1: u64, t2: u64, v2: u64, current: u64)
    requires
        t1 < t2,
        t2 < current,
        v1 != TASK_TIMER_VALUE,
        v2 != TASK_TIMER_VALUE,
    ensures
        ({
            let s0 = seq![Timer { timeout: TASK_TIMER_PERIOD, value: TASK_TIMER_VALUE }];
            let s1 = insert_sorted_spec(s0, Timer { timeout: t1, value: v1 });
            let s2 = insert_sorted_spec(s1, Timer { timeout: t2, value: v2 });
            let k = expired_count(s2, current);
            fired_messages(s2.take(k)) == seq![
                Message::TimerTimeout(v1),
                Message::TimerTimeout(v2),
            ]
        }),
{
    let task = Timer { timeout: TASK_TIMER_PERIOD, value: TASK_TIMER_VALUE };
    let a = Timer { timeout: t1, value: v1 };
    let b = Timer { timeout: t2, value: v2 };
    let s0 = seq![task];
    let s1 = insert_sorted_spec(s0, a);
    let s2 = insert_sorted_spec(s1, b);
    let m1 = Message::TimerTimeout(v1);
    let m2 = Message::TimerTimeout(v2);

    reveal_with_fuel(expired_count, 4);
    reveal_with_fuel(fired_messages, 4);
    reveal_with_fuel(insert_index, 4);

    assert(s0.drop_first() =~= Seq::<Timer>::empty());
    assert(insert_index(Seq::<Timer>::empty(), a) == 0);
    assert(insert_index(Seq::<Timer>::empty(), b) == 0);

    if t1 >= TASK_TIMER_PERIOD {
        // both new timers sort after the task timer
        assert(insert_index(s0, a) == 1);
        assert(s1 =~= seq![task, a]);
        assert(s1.drop_first() =~= seq![a]);
        assert(seq![a].drop_first() =~= Seq::<Timer>::empty());
        assert(insert_index(seq![a], b) == 1);
        assert(insert_index(s1, b) == 2);
        assert(s2 =~= seq![task, a, b]);
        lemma_expired_three(seq![task, a, b], current);
        let r1 = seq![task, a, b].drop_first();
        assert(r1 =~= seq![a, b]);
        assert(r1.drop_first() =~= seq![b]);
        assert(seq![b].drop_first() =~= Seq::<Timer>::empty());
        assert(fired_messages(seq![task, a, b]) =~= seq![m1, m2]);
    } else if t2 >= TASK_TIMER_PERIOD {
        // t1 sorts before the task timer, t2 after it
        assert(insert_index(s0, a) == 0);
        assert(s1 =~= seq![a, task]);
        assert(s1.drop_first() =~= seq![task]);
        assert(seq![task].drop_first() =~= Seq::<Timer>::empty());
        assert(insert_index(seq![task], b) == 1);
        assert(insert_index(s1, b) == 2);
        assert(s2 =~= seq![a, task, b]);
        lemma_expired_three(seq![a, task, b], current);
        let r1 = seq![a, task, b].drop_first();
        assert(r1 =~= seq![task, b]);
        assert(r1.drop_first() =~= seq![b]);
        assert(seq![b].drop_first() =~= Seq::<Timer>::empty());
        assert(fired_messages(seq![a, task, b]) =~= seq![m1, m2]);
    } else {
        // both sort before the task timer
        assert(insert_index(s0, a) == 0);
        assert(s1 =~= seq![a, task]);
        assert(s1.drop_first() =~= seq![task]);
        assert(insert_index(seq![task], b) == 0);
        assert(insert_index(s1, b) == 1);
        assert(s2 =~= seq![a, b, task]);
        let s = seq![a, b, task];
        assert(s.drop_first() =~= seq![b, task]);
        assert(seq![b, task].drop_first() =~= seq![task]);
        assert(seq![task].drop_first() =~= Seq::<Timer>::empty());
        if current <= TASK_TIMER_PERIOD {
            assert(expired_count(s, current) == 2);
            assert(s.take(2) =~= seq![a, b]);
            assert(seq![a, b].drop_first() =~= seq![b]);
            assert(seq![b].drop_first() =~= Seq::<Timer>::empty());
            assert(fired_messages(seq![a, b]) =~= seq![m1, m2]);
        } else {
            lemma_expired_three(s, current);
            assert(seq![b, task].drop_first() =~= seq![task]);
            assert(fired_messages(s) =~= seq![m1, m2]);
        }
    }
}

/// Helper for the ordering law: a three-timer list that has wholly
/// expired is its own expired prefix.
proof fn lemma_expired_three(s: Seq<Timer>, current: u64)
    requires
        s.len() == 3,
        forall|i: int| 0 <= i < 3 ==> s[i].timeout < current,
    ensures
        expired_count(s, current) == 3,
        s.take(3) == s,
{
    reveal_with_fuel(expired_count, 4);
    assert(s.drop_first() =~= seq![s[1], s[2]]);
    assert(seq![s[1], s[2]].drop_first() =~= seq![s[2]]);
    assert(seq![s[2]].drop_first() =~= Seq::<Timer>::empty());
    assert(expired_count(s, current) == 3);
    assert(s.take(3) =~= s);
}

/// The LAPIC timer frequency measured by the boot calibration: the
/// counts that elapsed during a 100 ms busy-wait, scaled to one
/// second.
pub fn calibrated_lapic_freq(elapsed: u32) -> (r: u32)
    requires
        elapsed * 10 <= u32::MAX,
    ensures
        r == elapsed * 10,
{
    elapsed * 10
}

/// The initial count that makes the LAPIC timer fire at the kernel
/// tick rate in periodic mode.
pub fn periodic_initial_count(lapic_freq: u32) -> (r: u32)
    ensures
        r == lapic_freq / TIMER_FREQ,
{
    lapic_freq / TIMER_FREQ
}

/// The timer subsystem as it stands after boot: tick zero, with the
/// task timer armed one period out. (Calibrating and programming the
/// Local APIC timer happens outside the library.)
pub fn initialize_timer() -> (r: TimerManager)
    ensures
        r.wf(),
        r.tick == 0,
        r.timers@ == seq![Timer { timeout: TASK_TIMER_PERIOD, value: TASK_TIMER_VALUE }],
{
    let mut manager = TimerManager::new();
    let timeout = manager.tick + TASK_TIMER_PERIOD;
    manager.add_timer(timeout, TASK_TIMER_VALUE);
    proof {
        assert(manager.timers@ =~= seq![Timer { timeout: TASK_TIMER_PERIOD, value: TASK_TIMER_VALUE }]);
    }
    manager
}

/// One batch of elapsed LAPIC ticks, handed from the interrupt
/// handler to the manager by the main loop.
pub fn on_lapic_interrupt(
    manager: &mut TimerManager,
    elapsed: u64,
    events: &mut MessageQueue,
) -> (task_timer_timeout: bool)
    requires
        old(manager).wf(),
        old(events).wf(),
        old(manager).tick + elapsed + TASK_TIMER_PERIOD <= u64::MAX,
    ensures
        final(manager).wf(),
        final(events).wf(),
        final(manager).tick == old(manager).tick + elapsed,
        ({
            let current = (old(manager).tick + elapsed) as u64;
            let s = old(manager).timers@;
            let k = expired_count(s, current);
            task_timer_timeout == (task_count(s.take(k)) > 0)
        }),
{
    manager.tick(elapsed, events)
}

pub fn get_current_tick(manager: &TimerManager) -> (r: u64)
    ensures
        r == manager.tick,
{
    manager.tick
}

} // verus!
