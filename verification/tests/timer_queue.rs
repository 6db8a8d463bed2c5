//! Software timers and the kernel message queue: firing order, the
//! task timer's re-arming, and the bounded queue's behaviour.

use mikanami::message::{should_idle, Message, MessageQueue};
use mikanami::timer::{
    get_current_tick, initialize_timer, on_lapic_interrupt, Timer, TimerManager,
    TASK_TIMER_PERIOD, TASK_TIMER_VALUE,
};

#[test]
fn message_queue_is_fifo_and_bounded() {
    let mut q = MessageQueue::new(2);
    assert_eq!(q.pop(), None);
    assert_eq!(q.push(Message::TimerTimeout(1)), Ok(()));
    assert_eq!(q.push(Message::Xhci), Ok(()));
    assert_eq!(q.push(Message::TimerTimeout(2)), Err(()));
    assert_eq!(q.pop(), Some(Message::TimerTimeout(1)));
    assert_eq!(q.pop(), Some(Message::Xhci));
    assert_eq!(q.pop(), None);
    // wrap around the ring
    assert_eq!(q.push(Message::TimerTimeout(3)), Ok(()));
    assert_eq!(q.pop(), Some(Message::TimerTimeout(3)));
}

#[test]
fn idle_decision() {
    let mut q = MessageQueue::new(4);
    assert!(should_idle(&q, 0));
    assert!(!should_idle(&q, 1));
    q.push(Message::Xhci).unwrap();
    assert!(!should_idle(&q, 0));
}

#[test]
fn timer_ordering_in_queue() {
    // two timers with t1 < t2: advancing past t2 posts v1 first
    let mut tm = initialize_timer();
    tm.add_timer(5, 7);
    tm.add_timer(9, 8);
    let mut q = MessageQueue::new(8);
    let fired = tm.tick(12, &mut q);
    assert!(fired); // the task timer (armed at 2) fired too
    assert_eq!(q.pop(), Some(Message::TimerTimeout(7)));
    assert_eq!(q.pop(), Some(Message::TimerTimeout(8)));
    assert_eq!(q.pop(), None);
    // the task timer re-armed one period past the new tick
    assert!(tm.timers.contains(&Timer { timeout: 12 + TASK_TIMER_PERIOD, value: TASK_TIMER_VALUE }));
}

#[test]
fn timer_fires_only_after_timeout_passes() {
    // a timer armed at t fires on the first tick with t < tick
    let mut tm = TimerManager::new();
    tm.add_timer(3, 42);
    let mut q = MessageQueue::new(4);
    assert!(!tm.tick(3, &mut q)); // tick == 3: 3 < 3 is false
    assert_eq!(q.pop(), None);
    tm.tick(1, &mut q); // tick == 4
    assert_eq!(q.pop(), Some(Message::TimerTimeout(42)));
}

#[test]
fn task_timer_rearms_itself() {
    // initialised at tick 0, the task timer sits at one period (2)
    // and fires strictly after its timeout has passed
    let mut tm = initialize_timer();
    assert_eq!(get_current_tick(&tm), 0);
    assert_eq!(tm.timers, vec![Timer { timeout: 2, value: TASK_TIMER_VALUE }]);
    let mut q = MessageQueue::new(4);

    assert!(!tm.tick(2, &mut q)); // tick 2: not yet over
    assert!(tm.tick(1, &mut q)); // tick 3: fires, re-arms at 5
    assert_eq!(tm.timers, vec![Timer { timeout: 5, value: TASK_TIMER_VALUE }]);
    assert!(!tm.tick(1, &mut q)); // tick 4
    assert!(tm.tick(2, &mut q)); // tick 6: fires again, re-arms at 8
    assert_eq!(tm.timers, vec![Timer { timeout: 8, value: TASK_TIMER_VALUE }]);
    assert_eq!(q.pop(), None); // the task timer posts no message
}

#[test]
fn lapic_batch_goes_through_manager() {
    let mut tm = initialize_timer();
    let mut q = MessageQueue::new(4);
    tm.add_timer(1, 9);
    let fired = on_lapic_interrupt(&mut tm, 4, &mut q);
    assert!(fired);
    assert_eq!(get_current_tick(&tm), 4);
    assert_eq!(q.pop(), Some(Message::TimerTimeout(9)));
}

#[test]
fn timers_kept_sorted_by_timeout() {
    let mut tm = TimerManager::new();
    tm.add_timer(9, 1);
    tm.add_timer(3, 2);
    tm.add_timer(6, 3);
    tm.add_timer(3, 4); // equal timeouts keep insertion order
    let timeouts: Vec<u64> = tm.timers.iter().map(|t| t.timeout).collect();
    assert_eq!(timeouts, vec![3, 3, 6, 9]);
    assert_eq!(tm.timers[0].value, 2);
    assert_eq!(tm.timers[1].value, 4);
}
