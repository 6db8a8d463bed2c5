//! The cooperative runtime: channel FIFO order, the broadcast
//! latch, the one-shot listener table, and the command-completion
//! rendezvous.

use mikanami::usb::command_ring::init_command_ring;
use mikanami::usb::runtime::{BroadcastChannel, Channel, Executor, Listeners, NoMoreTask};
use mikanami::usb::trb::{enable_slot_trb, COMPLETION_CODE_SUCCESS, TRB_TYPE_ENABLE_SLOT};
use mikanami::usb::xhci::CommandCompletionTrb;

#[test]
fn channel_fifo_order() {
    let mut ch: Channel<u32> = Channel::new();
    assert_eq!(ch.send(10), None);
    assert_eq!(ch.send(20), None);
    assert_eq!(ch.receive(), Some(10));
    assert_eq!(ch.receive(), Some(20));
    assert_eq!(ch.receive(), None);
}

#[test]
fn channel_send_wakes_parked_receiver() {
    let mut ch: Channel<u32> = Channel::new();
    assert_eq!(ch.poll_receive(77), None);
    // the next send hands back the parked waker
    assert_eq!(ch.send(1), Some(77));
    assert_eq!(ch.poll_receive(77), Some(1));
}

#[test]
fn broadcast_latch_is_idempotent() {
    let mut latch = BroadcastChannel::new();
    assert!(!latch.poll(1));
    assert!(!latch.poll(2));
    let woken = latch.send();
    assert_eq!(woken, vec![1, 2]);
    // once sent, every await resolves at once, with no further send
    for waker in 0..10u64 {
        assert!(latch.poll(waker));
    }
    assert!(latch.wakers.is_empty());
}

#[test]
fn listener_table_round_trip() {
    let mut listeners: Listeners<u32> = Listeners::new();
    listeners.register(0x40);
    assert!(!listeners.deliver(0x80, 5)); // nobody waits there
    assert!(listeners.deliver(0x40, 5));
    assert!(!listeners.deliver(0x40, 6)); // already delivered
    assert_eq!(listeners.take(0x40), Some(5));
    assert_eq!(listeners.take(0x40), None);
}

#[test]
fn executor_runs_tasks_in_spawn_order() {
    let mut executor = Executor::new();
    assert_eq!(executor.next_task(), Err(NoMoreTask));
    executor.spawn(4);
    executor.spawn(9);
    assert!(executor.has_next_task());
    assert_eq!(executor.next_task(), Ok(4));
    assert_eq!(executor.next_task(), Ok(9));
    assert!(!executor.has_next_task());
}

#[test]
fn command_completion_unblocks_listener() {
    // push EnableSlot; the simulated completion at the pushed
    // address resolves the await with slot id 3
    let mut cmd_ring = init_command_ring(32, 0x1000);
    let key = cmd_ring.push_command(enable_slot_trb()).unwrap();
    assert_eq!(key, 0x1000);
    assert_eq!(cmd_ring.ring.data[0].trb_type(), TRB_TYPE_ENABLE_SLOT);
    assert_eq!(cmd_ring.take_completion(key), None); // still in flight

    let completion = CommandCompletionTrb {
        command_trb_pointer: key,
        completion_code: COMPLETION_CODE_SUCCESS,
        slot_id: 3,
    };
    assert!(cmd_ring.on_command_completion(completion));
    let got = cmd_ring.take_completion(key).unwrap();
    assert_eq!(got.slot_id, 3);
    assert_eq!(got.completion_code, COMPLETION_CODE_SUCCESS);
    // the command ring's dequeue moved past the completed command
    assert_eq!(cmd_ring.ring.deque, 1);
}
