//! The USB pipeline end to end on simulated values: descriptor
//! parsing, the configuration grammar, control requests on the
//! default control pipe, endpoint enablement, the addressing state
//! machine and the HID class drivers.

use mikanami::usb::device::{init_dcbaa, ContextSize, EndpointType, InputContext};
use mikanami::usb::init_device::{
    address_device_result, clear_csc_write, clear_port_reset_write,
    prepare_input_ctx_for_address_device, set_port_reset_write, DeviceInitAction, PortAction,
};
use mikanami::usb::keyboard::KeyboardClass;
use mikanami::usb::mouse::{MouseClass, MouseReport};
use mikanami::usb::key::{Modifier, ModifierSet};
use mikanami::usb::transfer_ring::{ControlRequestType, SetupData, TransferRingSet};
use mikanami::usb::trb::{
    TRB_TYPE_ADDRESS_DEVICE, TRB_TYPE_SETUP_STAGE, TRB_TYPE_STATUS_STAGE,
    COMPLETION_CODE_SUCCESS,
};
use mikanami::usb::usbd::{
    classify_interface, config_probe_outcome, construct_configuration, enable_endpoints,
    parse_device_descriptor, read_config_descriptors, selected_endpoints, Descriptor,
    HidClassKind, UsbDevice,
};
use mikanami::usb::util::find_lsb;
use mikanami::usb::xhci::{CommandCompletionTrb, TransferEventTrb, XhciError};

/// A two-interface HID configuration block: a keyboard on interface
/// 0 (endpoint 0x81) and a mouse on interface 1 (endpoint 0x82).
fn hid_config_block() -> Vec<u8> {
    let mut b = Vec::new();
    // configuration descriptor: wTotalLength filled in below
    b.extend_from_slice(&[9, 2, 0, 0, 2, 1, 0, 0xa0, 50]);
    // interface 0: HID boot keyboard
    b.extend_from_slice(&[9, 4, 0, 0, 1, 3, 1, 1, 0]);
    // HID descriptor
    b.extend_from_slice(&[9, 33, 0x11, 1, 0, 1, 34, 63, 0]);
    // endpoint 0x81: interrupt in, 8 bytes, interval 10
    b.extend_from_slice(&[7, 5, 0x81, 3, 8, 0, 10]);
    // interface 1: HID boot mouse
    b.extend_from_slice(&[9, 4, 1, 0, 1, 3, 1, 2, 0]);
    // endpoint 0x82: interrupt in, 4 bytes, interval 10
    b.extend_from_slice(&[7, 5, 0x82, 3, 4, 0, 10]);
    let total = b.len() as u16;
    b[2] = (total & 0xff) as u8;
    b[3] = (total >> 8) as u8;
    b
}

#[test]
fn device_descriptor_parses() {
    let bytes = vec![
        18, 1, 0, 2, 0, 0, 0, 8, 0x8a, 0x2e, 0x01, 0x00, 0x34, 0x12, 0, 0, 0, 2,
    ];
    let d = parse_device_descriptor(&bytes, 0);
    assert_eq!(d.length, 18);
    assert_eq!(d.max_packet_size_0, 8);
    assert_eq!(d.id_vendor, 0x2e8a);
    assert_eq!(d.id_product, 0x0001);
    assert_eq!(d.bcd_device, 0x1234);
    assert_eq!(d.b_num_configurations, 2);
}

#[test]
fn config_probe_sizing() {
    let mut block = hid_config_block();
    let total = block.len();
    // a 64-byte probe that saw the whole block is complete
    block.resize(64, 0);
    assert_eq!(config_probe_outcome(&block, 64), Err(total as u16));
    // claim a bigger total: the caller must fetch again
    block[2] = 200;
    block[3] = 0;
    assert_eq!(config_probe_outcome(&block, 64), Ok(200));
}

#[test]
fn config_block_walk_and_grammar() {
    let block = hid_config_block();
    let descs = read_config_descriptors(&block, block.len());
    assert_eq!(descs.len(), 6);
    assert!(matches!(descs[0], Descriptor::Configuration(_)));
    assert!(matches!(descs[1], Descriptor::Interface(_)));
    assert!(matches!(descs[2], Descriptor::Hid(_)));
    assert!(matches!(descs[3], Descriptor::Endpoint(_)));

    let conf = construct_configuration(&descs).unwrap();
    assert_eq!(conf.configuration_val, 1);
    assert_eq!(conf.interfaces.len(), 2);
    assert_eq!(conf.interfaces[0].interface_num, 0);
    assert_eq!(conf.interfaces[0].alternates.len(), 1);
    let kb_alt = &conf.interfaces[0].alternates[0];
    assert_eq!((kb_alt.class, kb_alt.subclass, kb_alt.protocol), (3, 1, 1));
    assert_eq!(kb_alt.endpoints.len(), 2); // the HID record rides along
    let ms_alt = &conf.interfaces[1].alternates[0];
    assert_eq!((ms_alt.class, ms_alt.subclass, ms_alt.protocol), (3, 1, 2));

    assert_eq!(
        classify_interface(kb_alt.class, kb_alt.subclass, kb_alt.protocol),
        HidClassKind::Keyboard
    );
    assert_eq!(
        classify_interface(ms_alt.class, ms_alt.subclass, ms_alt.protocol),
        HidClassKind::Mouse
    );
    assert_eq!(classify_interface(8, 6, 80), HidClassKind::Other);
}

#[test]
fn malformed_block_is_refused() {
    // an interface record whose run hits a configuration record
    let block = hid_config_block();
    let mut descs = read_config_descriptors(&block, block.len());
    let conf_rec = descs[0];
    descs.push(conf_rec); // stray configuration at the tail
    // the grammar stops at the malformed tail but keeps the rest
    let conf = construct_configuration(&descs).unwrap();
    assert_eq!(conf.interfaces.len(), 1); // interface 1's run is now malformed
}

#[test]
fn control_request_no_data_emits_setup_and_status() {
    // SetProtocol on interface 0: exactly two TRBs on EP1 —
    // SETUP(0x21, 11, 0, 0, 0, transfer type No) and STATUS(in)
    let mut rings = TransferRingSet::new(32);
    rings.init_ring_at(1, 1, 0x9000);
    let setup = SetupData {
        request_type: ControlRequestType::SetProtocol,
        value: 0,
        index: 0,
        length: 0,
    };
    let key = rings.control_request(1, setup, None).unwrap();
    assert_eq!(key, 0x9000); // the await hangs off the SETUP TRB

    let ring = &rings.rings[0].ring;
    let setup_trb = ring.data[0];
    assert_eq!(setup_trb.trb_type(), TRB_TYPE_SETUP_STAGE);
    assert_eq!(setup_trb.d0 & 0xff, 0x21); // bmRequestType
    assert_eq!((setup_trb.d0 >> 8) & 0xff, 11); // bRequest
    assert_eq!(setup_trb.d0 >> 16, 0); // wValue
    assert_eq!(setup_trb.d1, 0); // wIndex, wLength
    assert_eq!((setup_trb.d3 >> 16) & 3, 0); // transfer type No
    assert_eq!((setup_trb.d3 >> 5) & 1, 1); // IOC

    let status_trb = ring.data[1];
    assert_eq!(status_trb.trb_type(), TRB_TYPE_STATUS_STAGE);
    assert_eq!((status_trb.d3 >> 16) & 1, 1); // direction in
    assert_eq!((status_trb.d3 >> 5) & 1, 1); // IOC

    assert_eq!(ring.enque, 2); // nothing else was pushed
}

#[test]
fn control_request_with_data_arms_data_stage() {
    let mut rings = TransferRingSet::new(32);
    rings.init_ring_at(1, 1, 0x9000);
    let setup = SetupData {
        request_type: ControlRequestType::GetDescriptor,
        value: 0x0100,
        index: 0,
        length: 18,
    };
    let key = rings.control_request(1, setup, Some(0xb000)).unwrap();
    assert_eq!(key, 0x9000 + 16); // the await hangs off the DATA TRB
    let ring = &rings.rings[0].ring;
    assert_eq!(ring.enque, 3);
    let data_trb = ring.data[1];
    assert_eq!(data_trb.d0, 0xb000); // buffer address
    assert_eq!(data_trb.d2, 18); // transfer length
    assert_eq!((data_trb.d3 >> 16) & 1, 1); // direction in
    let status_trb = ring.data[2];
    assert_eq!((status_trb.d3 >> 16) & 1, 0); // status reversed: out
}

#[test]
fn transfer_event_resolves_listener() {
    let mut rings = TransferRingSet::new(32);
    rings.init_ring_at(1, 1, 0x9000);
    let setup = SetupData {
        request_type: ControlRequestType::SetProtocol,
        value: 0,
        index: 0,
        length: 0,
    };
    let key = rings.control_request(1, setup, None).unwrap();
    assert_eq!(rings.take_transfer_result(key), None);

    let evt = TransferEventTrb {
        trb_pointer: key,
        completion_code: COMPLETION_CODE_SUCCESS,
        slot_id: 1,
        endpoint_id: 1,
    };
    assert!(rings.on_trf_event(evt));
    assert_eq!(rings.take_transfer_result(key), Some(Ok(evt)));
    // the ring's dequeue moved one past the completed TRB
    assert_eq!(rings.rings[0].ring.deque, 1);
}

#[test]
fn failed_transfer_surfaces_error() {
    let mut rings = TransferRingSet::new(32);
    rings.init_ring_at(2, 1, 0x9000);
    let setup = SetupData {
        request_type: ControlRequestType::SetConfigutation,
        value: 1,
        index: 0,
        length: 0,
    };
    let key = rings.control_request(2, setup, None).unwrap();
    let evt = TransferEventTrb {
        trb_pointer: key,
        completion_code: 4, // USB transaction error
        slot_id: 2,
        endpoint_id: 1,
    };
    assert!(rings.on_trf_event(evt));
    assert_eq!(
        rings.take_transfer_result(key),
        Some(Err(XhciError::TransferError(evt)))
    );
}

#[test]
fn addressing_state_machine_serialises_ports() {
    // PortStatusChange(port 0, CCS+CSC) queues the port, clears its
    // CSC bit, and — the pipeline being free — resets it at once
    let mut sm = DeviceInitAction::new();
    let portsc_connected: u32 = 1 | (1 << 17);
    let actions = sm.on_port_status_change(0, portsc_connected);
    assert_eq!(
        actions,
        vec![PortAction::ClearConnectStatusChange(0), PortAction::ResetPort(0)]
    );
    assert_eq!(sm.current_port, Some(0));

    // a second port waits its turn behind the first
    let actions2 = sm.on_port_status_change(3, portsc_connected);
    assert_eq!(actions2, vec![PortAction::ClearConnectStatusChange(3)]);
    assert_eq!(sm.waiting_port, vec![3]);

    // the reset of port 0 finishes: addressing begins there
    let portsc_reset_done: u32 = 1 | (1 << 21);
    let actions3 = sm.on_port_status_change(0, portsc_reset_done);
    assert_eq!(actions3, vec![PortAction::BeginAddressing(0)]);
}

#[test]
fn addressing_pipeline_builds_contexts() {
    // EnableSlot completed with slot 2: the driver installs the
    // device context, builds the input context from the port's
    // speed, and issues AddressDevice for slot 2
    let mut dcbaa = init_dcbaa(8, ContextSize::Csz32Bytes, None);
    let slot_id = 2usize;
    dcbaa.init_context_at(slot_id, 0xc000);
    assert_eq!(dcbaa.dcbaa[slot_id], 0xc000);

    let port_id = 1usize; // zero-based; the slot context records 2
    let speed = 3u8; // high speed
    let input_ctx = prepare_input_ctx_for_address_device(port_id, 0x9000, ContextSize::Csz32Bytes, speed, 0xd000);
    let h = input_ctx.handler();
    assert_eq!(h.control_add_flags, 0b11);
    assert_eq!(h.device.slot.root_hub_port_number, 2);
    assert_eq!(h.device.slot.speed, 3);
    assert_eq!(h.device.endpoints[1].endpoint_type, EndpointType::Control);
    assert_eq!(h.device.endpoints[1].max_packet_size, 64);
    assert_eq!(h.device.endpoints[1].tr_dequeue_pointer, 0x9000);
    assert_eq!(h.device.endpoints[1].error_count, 3);

    let trb = mikanami::usb::trb::address_device_trb(input_ctx.get_address(), slot_id as u8, false);
    assert_eq!(trb.trb_type(), TRB_TYPE_ADDRESS_DEVICE);
    assert_eq!(trb.d0, 0xd000);
    assert_eq!(trb.d3 >> 24, 2);

    // success lets the pipeline notify the driver; failure aborts
    let good = CommandCompletionTrb {
        command_trb_pointer: 0x1000,
        completion_code: COMPLETION_CODE_SUCCESS,
        slot_id: 2,
    };
    assert_eq!(address_device_result(good), Ok(()));
    let bad = CommandCompletionTrb { completion_code: 9, ..good };
    assert_eq!(
        address_device_result(bad),
        Err(XhciError::AddressDeviceCommandFailed(bad))
    );
}

#[test]
fn portsc_writes_preserve_other_change_bits() {
    let portsc: u32 = 1 | (1 << 17) | (1 << 21) | (1 << 10);
    // clearing CSC writes every other change bit as 0
    let w = clear_csc_write(portsc);
    assert_eq!(w & (1 << 17), 1 << 17);
    assert_eq!(w & (1 << 21), 0);
    assert_eq!(w & 1, 1); // CCS (read-only) carried through
    assert_eq!(w & (1 << 10), 1 << 10);
    let w2 = clear_port_reset_write(portsc);
    assert_eq!(w2 & (1 << 21), 1 << 21);
    assert_eq!(w2 & (1 << 17), 0);
    let w3 = set_port_reset_write(portsc);
    assert_eq!(w3 & (1 << 4), 1 << 4);
    assert_eq!(w3 & (1 << 17), 0);
}

#[test]
fn endpoint_enablement_configures_contexts_and_rings() {
    let block = hid_config_block();
    let descs = read_config_descriptors(&block, block.len());
    let conf = construct_configuration(&descs).unwrap();
    let mut dev = UsbDevice::new(2, vec![conf]);
    dev.on_configuration_set(0);
    assert_eq!(dev.config_selected, Some(0));
    assert_eq!(dev.alternates_selected, vec![0, 0]);

    let eps = selected_endpoints(&dev.configs[0].interfaces, &dev.alternates_selected);
    assert_eq!(eps.len(), 2);
    assert_eq!(eps[0].endpoint_addr, 0x81);
    assert_eq!(eps[1].endpoint_addr, 0x82);

    let mut rings = TransferRingSet::new(32);
    let ring_bases = vec![0x20000u64, 0x21000];
    let (input_ctx, trb) = enable_endpoints(
        2,
        &eps,
        &ring_bases,
        &mut rings,
        1,
        3,
        ContextSize::Csz32Bytes,
        0xe000,
    );
    let h = input_ctx.handler();
    // DCIs: 0x81 -> 3, 0x82 -> 5; flags A0, A3, A5
    assert_eq!(h.control_add_flags, 1 | (1 << 3) | (1 << 5));
    assert_eq!(h.device.slot.context_entries, 6);
    assert_eq!(h.device.endpoints[3].endpoint_type, EndpointType::InterruptIn);
    assert_eq!(h.device.endpoints[3].max_packet_size, 8);
    assert_eq!(h.device.endpoints[3].tr_dequeue_pointer, 0x20000);
    assert_eq!(h.device.endpoints[3].interval, 10);
    assert_eq!(h.device.endpoints[5].max_packet_size, 4);
    assert_eq!(h.device.endpoints[5].tr_dequeue_pointer, 0x21000);
    assert_eq!(trb.d0, 0xe000);
    assert_eq!(trb.d3 >> 24, 2);
    // the transfer rings exist for both DCIs
    assert!(rings.rings.iter().any(|e| e.slot_id == 2 && e.endpoint_id == 3));
    assert!(rings.rings.iter().any(|e| e.slot_id == 2 && e.endpoint_id == 5));
}

#[test]
fn hid_class_drivers_bind_and_subscribe() {
    let block = hid_config_block();
    let descs = read_config_descriptors(&block, block.len());
    let conf = construct_configuration(&descs).unwrap();

    let kb = KeyboardClass::new(2, &conf.interfaces[0].alternates[0]).unwrap();
    assert_eq!(kb.dci, 3);
    let req = kb.initialize_request();
    assert_eq!(req.request_type, ControlRequestType::SetProtocol);
    assert_eq!(req.index, 0);
    let trb = kb.subscribe_trb(0xf000);
    assert_eq!(trb.d0, 0xf000);
    assert_eq!(trb.d2, 8);

    let ms = MouseClass::new(2, &conf.interfaces[1].alternates[0]).unwrap();
    assert_eq!(ms.dci, 5);
    assert_eq!(ms.initialize_request().index, 1);
}

#[test]
fn device_construction_refuses_malformed_block() {
    let block = hid_config_block();
    let descs = read_config_descriptors(&block, block.len());
    let dev = mikanami::usb::usbd::construct_device(2, vec![descs.clone()]).unwrap();
    assert_eq!(dev.slot_id, 2);
    assert_eq!(dev.configs.len(), 1);
    assert_eq!(dev.config_selected, None);

    // a block that does not open with a configuration record
    let headless: Vec<Descriptor> = descs[1..].to_vec();
    assert!(matches!(
        mikanami::usb::usbd::construct_device(2, vec![headless]),
        Err(XhciError::UnexpectedDescriptor)
    ));
}

#[test]
fn configuration_requests_carry_descriptor_values() {
    let block = hid_config_block();
    let descs = read_config_descriptors(&block, block.len());
    let conf = construct_configuration(&descs).unwrap();
    let mut dev = UsbDevice::new(2, vec![conf]);

    let set_conf = dev.set_configuration_request(0);
    assert_eq!(set_conf.request_type, ControlRequestType::SetConfigutation);
    assert_eq!(set_conf.value, 1); // bConfigurationValue
    assert_eq!(set_conf.length, 0);

    dev.on_configuration_set(0);
    dev.on_interface_set(1, 0);
    let set_intf = dev.set_interface_request(1, 0);
    assert_eq!(set_intf.request_type, ControlRequestType::SetInterface);
    assert_eq!(set_intf.index, 1);

    let dev_req = mikanami::usb::usbd::get_device_descriptor_request();
    assert_eq!(dev_req.value, 0x0100);
    assert_eq!(dev_req.length, 18);
    let conf_req = mikanami::usb::usbd::get_config_descriptor_request(1, 64);
    assert_eq!(conf_req.value, 0x0201);
    assert_eq!(conf_req.length, 64);
}

#[test]
fn mouse_report_reads_back() {
    let report = MouseReport { buttons: 1, dx: -3, dy: 7 };
    assert_eq!(report.buttons(), 1);
    assert_eq!(report.dx(), -3);
    assert_eq!(report.dy(), 7);
}

#[test]
fn modifier_set_decodes_bits() {
    let set = ModifierSet(0b1000_0011);
    assert!(set.l_ctrl());
    assert!(set.l_shift());
    assert!(!set.l_alt());
    assert!(set.r_gui());
    assert_eq!(
        set.get(),
        vec![Modifier::LCtrl, Modifier::LShift, Modifier::RGui]
    );
    assert_eq!(ModifierSet(0).get(), vec![]);
}

#[test]
fn find_lsb_scans_low_fifteen_bits() {
    assert_eq!(find_lsb(0b1000), 3);
    assert_eq!(find_lsb(1), 0);
    assert_eq!(find_lsb(0), 16);
    assert_eq!(find_lsb(0x8000), 16); // bit 15 is never examined
}
