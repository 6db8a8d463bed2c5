//! The ring protocol under simulated hardware: full detection,
//! cycle toggling across the Link wrap, event-ring emptiness, and
//! the event drain.

use mikanami::usb::ring::{ConsumerRing, ProducerRing};
use mikanami::usb::trb::{
    UnknownTRB, TRB_TYPE_LINK, COMPLETION_CODE_SUCCESS,
};
use mikanami::usb::xhci::{
    encode_command_completion, encode_port_status_change, encode_transfer_event,
    CommandCompletionTrb, PortStatusChangeTrb, TransferEventTrb, XhciError,
};
use mikanami::usb::event_ring::init_event_ring;

fn trb_with(d0: u32) -> UnknownTRB {
    UnknownTRB { d0, d1: 0, d2: 0, d3: 0 }
}

#[test]
fn fresh_producer_ring_layout() {
    let ring = ProducerRing::new(32, 0x1000);
    assert_eq!(ring.size(), 32);
    assert!(ring.cycle_state());
    assert_eq!(ring.get_buf_ptr(), 0x1000);
    assert_eq!(ring.get_enque_ptr(), 0x1000);
    // the Link TRB points back at the base and carries toggle-cycle
    let link = ring.data[31];
    assert_eq!(link.trb_type(), TRB_TYPE_LINK);
    assert_eq!(link.d0, 0x1000);
    assert_eq!(link.d3 & 2, 2);
}

#[test]
fn producer_ring_full_detection() {
    // a ring of 32 entries has 31 data slots, one of them
    // sacrificial: 30 pushes land, the 31st is refused
    let mut ring = ProducerRing::new(32, 0x1000);
    for i in 0..30 {
        let r = ring.push(trb_with(i));
        assert_eq!(r, Ok(0x1000 + 16 * (i as u64)));
    }
    let r = ring.push(trb_with(99));
    assert_eq!(r, Err(XhciError::RingIsFull));
}

#[test]
fn producer_ring_cycle_toggles_at_wrap() {
    let mut ring = ProducerRing::new(32, 0x1000);
    for i in 0..30 {
        ring.push(trb_with(i)).unwrap();
        assert_eq!(ring.data[i as usize].d3 & 1, 1);
    }
    // consume a few TRBs so the producer can pass the Link slot
    ring.set_deque_ptr(0x1000 + 16 * 5);
    // slot 30 is the last data slot before the Link: written with
    // cycle 1, and passing the Link flips the producer to cycle 0
    ring.push(trb_with(100)).unwrap();
    assert_eq!(ring.data[30].d3 & 1, 1);
    assert_eq!(ring.data[31].d3 & 1, 1); // Link republished at cycle 1
    assert!(!ring.cycle_state());
    // the next TRBs wrap to the start and carry cycle 0
    ring.push(trb_with(101)).unwrap();
    ring.push(trb_with(102)).unwrap();
    assert_eq!(ring.data[0].d3 & 1, 0);
    assert_eq!(ring.data[1].d3 & 1, 0);
}

#[test]
fn event_ring_reads_empty_when_fresh() {
    let mut ring = ConsumerRing::new(32, 0x2000);
    assert!(ring.cycle_state());
    assert_eq!(ring.pop(), None);
    assert_eq!(ring.deque_index(), 0);
}

#[test]
fn event_ring_pop_wraps_and_toggles() {
    let mut ring = ConsumerRing::new(2, 0x2000);
    ring.data[0] = encode_port_status_change(PortStatusChangeTrb { port_id: 1 }, true);
    ring.data[1] = encode_port_status_change(PortStatusChangeTrb { port_id: 2 }, true);
    assert!(ring.pop().is_some());
    assert!(ring.pop().is_some());
    // wrapped: the consumer now hunts for cycle 0
    assert!(!ring.cycle_state());
    assert_eq!(ring.deque_index(), 0);
    assert_eq!(ring.pop(), None);
}

#[test]
fn event_drain_routes_by_kind() {
    let mut er = init_event_ring(8, 0x3000);
    let trf = TransferEventTrb {
        trb_pointer: 0x4000,
        completion_code: COMPLETION_CODE_SUCCESS,
        slot_id: 2,
        endpoint_id: 1,
    };
    let cmd = CommandCompletionTrb {
        command_trb_pointer: 0x5000,
        completion_code: COMPLETION_CODE_SUCCESS,
        slot_id: 3,
    };
    let port = PortStatusChangeTrb { port_id: 1 };
    er.ring.data[0] = encode_transfer_event(trf, true);
    er.ring.data[1] = encode_command_completion(cmd, true);
    er.ring.data[2] = encode_port_status_change(port, true);

    let (erdp, woken) = er.on_xhc_interrupt();
    assert_eq!(erdp, 0x3000 + 3 * 16);
    assert!(woken.is_empty());
    assert_eq!(er.trf_listener.receive(), Some(trf));
    assert_eq!(er.cmd_listener.receive(), Some(cmd));
    assert_eq!(er.port_listener.receive(), Some(port));
    assert_eq!(er.trf_listener.receive(), None);
}

#[test]
fn event_decode_encode_round_trip() {
    let e = TransferEventTrb { trb_pointer: 0xdead_beef_1230, completion_code: 13, slot_id: 7, endpoint_id: 3 };
    let raw = encode_transfer_event(e, false);
    assert_eq!(raw.cycle_bit(), false);
    match mikanami::usb::xhci::decode_event(raw) {
        mikanami::usb::xhci::EventTrb::Transfer(got) => assert_eq!(got, e),
        _ => panic!("decoded as the wrong kind"),
    }
}
