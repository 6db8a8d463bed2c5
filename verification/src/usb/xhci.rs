//! Errors of the xHCI driver and the plain forms of the event TRBs it
//! routes: transfer events, command completions and port status
//! changes, decoded from the raw blocks a consumer ring hands out.

use vstd::prelude::*;

use crate::usb::trb::{
    UnknownTRB, TRB_TYPE_COMMAND_COMPLETION, TRB_TYPE_PORT_STATUS_CHANGE, TRB_TYPE_TRANSFER_EVENT,
    COMPLETION_CODE_SHORT_PACKET, COMPLETION_CODE_SUCCESS,
};

verus! {

/// A Transfer Event TRB, with the fields the driver reads laid out as
/// plain values.
#[derive(Clone, Copy, Debug, PartialEq, Eq, Structural)]
pub struct TransferEventTrb {
    /// Physical address of the transfer TRB this event answers.
    pub trb_pointer: u64,
    pub completion_code: u8,
    pub slot_id: u8,
    pub endpoint_id: u8,
}

impl TransferEventTrb {
    /// Success and short packet both complete a transfer without error.
    pub open spec fn is_success_spec(self) -> bool {
        self.completion_code == COMPLETION_CODE_SUCCESS
            || self.completion_code == COMPLETION_CODE_SHORT_PACKET
    }

    pub fn is_success(&self) -> (r: bool)
        ensures
            r == self.is_success_spec(),
    {
        self.completion_code == COMPLETION_CODE_SUCCESS
            || self.completion_code == COMPLETION_CODE_SHORT_PACKET
    }
}

/// A Command Completion Event TRB in plain form.
#[derive(Clone, Copy, Debug, PartialEq, Eq, Structural)]
pub struct CommandCompletionTrb {
    /// Physical address of the command TRB this event answers.
    pub command_trb_pointer: u64,
    pub completion_code: u8,
    pub slot_id: u8,
}

/// A Port Status Change Event TRB in plain form. The port id is
/// one-based, as the hardware reports it.
#[derive(Clone, Copy, Debug, PartialEq, Eq, Structural)]
pub struct PortStatusChangeTrb {
    pub port_id: u8,
}

/// An event TRB sorted by its type field. Types this driver does not
/// handle are carried through unchanged.
#[derive(Clone, Copy, Debug, PartialEq, Eq, Structural)]
pub enum EventTrb {
    Transfer(TransferEventTrb),
    CommandCompletion(CommandCompletionTrb),
    PortStatusChange(PortStatusChangeTrb),
    Other(UnknownTRB),
}

pub open spec fn spec_decode_transfer_event(trb: UnknownTRB) -> TransferEventTrb {
    TransferEventTrb {
        trb_pointer: (trb.d0 as u64) | ((trb.d1 as u64) << 32),
        completion_code: (trb.d2 >> 24) as u8,
        slot_id: (trb.d3 >> 24) as u8,
        endpoint_id: ((trb.d3 >> 16) & 0x1f) as u8,
    }
}

pub open spec fn spec_decode_command_completion(trb: UnknownTRB) -> CommandCompletionTrb {
    CommandCompletionTrb {
        command_trb_pointer: (trb.d0 as u64) | ((trb.d1 as u64) << 32),
        completion_code: (trb.d2 >> 24) as u8,
        slot_id: (trb.d3 >> 24) as u8,
    }
}

pub open spec fn spec_decode_port_status_change(trb: UnknownTRB) -> PortStatusChangeTrb {
    PortStatusChangeTrb { port_id: (trb.d0 >> 24) as u8 }
}

/// How a raw ring entry reads as an event.
pub open spec fn spec_decode_event(trb: UnknownTRB) -> EventTrb {
    if trb.trb_type_spec() == TRB_TYPE_TRANSFER_EVENT {
        EventTrb::Transfer(spec_decode_transfer_event(trb))
    } else if trb.trb_type_spec() == TRB_TYPE_COMMAND_COMPLETION {
        EventTrb::CommandCompletion(spec_decode_command_completion(trb))
    } else if trb.trb_type_spec() == TRB_TYPE_PORT_STATUS_CHANGE {
        EventTrb::PortStatusChange(spec_decode_port_status_change(trb))
    } else {
        EventTrb::Other(trb)
    }
}

/// Reads an event TRB popped from the event ring into its plain form.
pub fn decode_event(trb: UnknownTRB) -> (r: EventTrb)
    ensures
        r == spec_decode_event(trb),
{
    let ty = trb.trb_type();
    if ty == TRB_TYPE_TRANSFER_EVENT {
        EventTrb::Transfer(TransferEventTrb {
            trb_pointer: (trb.d0 as u64) | ((trb.d1 as u64) << 32),
            completion_code: (trb.d2 >> 24) as u8,
            slot_id: (trb.d3 >> 24) as u8,
            endpoint_id: ((trb.d3 >> 16) & 0x1f) as u8,
        })
    } else if ty == TRB_TYPE_COMMAND_COMPLETION {
        EventTrb::CommandCompletion(CommandCompletionTrb {
            command_trb_pointer: (trb.d0 as u64) | ((trb.d1 as u64) << 32),
            completion_code: (trb.d2 >> 24) as u8,
            slot_id: (trb.d3 >> 24) as u8,
        })
    } else if ty == TRB_TYPE_PORT_STATUS_CHANGE {
        EventTrb::PortStatusChange(PortStatusChangeTrb { port_id: (trb.d0 >> 24) as u8 })
    } else {
        EventTrb::Other(trb)
    }
}

/// Splitting a 64-bit pointer into two words and rejoining them is
/// the identity.
proof fn lemma_u64_split(p: u64)
    by (bit_vector)
    ensures
        (((p & 0xffff_ffff) as u32) as u64) | ((((p >> 32) as u32) as u64) << 32) == p,
{
}

proof fn lemma_shl24_roundtrip(x: u32)
    by (bit_vector)
    requires
        x < 256,
    ensures
        ((x << 24) >> 24) == x,
{
}

/// Field extraction from a packed fourth event word.
proof fn lemma_pack_d3(ty: u32, ep: u32, slot: u32, c: u32)
    by (bit_vector)
    requires
        ty < 64,
        ep < 32,
        slot < 256,
        c <= 1,
    ensures
        (((ty << 10) | (ep << 16) | (slot << 24) | c) >> 24) == slot,
        ((((ty << 10) | (ep << 16) | (slot << 24) | c) >> 16) & 0x1f) == ep,
        ((((ty << 10) | (ep << 16) | (slot << 24) | c) >> 10) & 0x3f) == ty,
        (((ty << 10) | (ep << 16) | (slot << 24) | c) & 1) == c,
{
}

/// Packs a transfer event the way the controller writes it into the
/// event ring, with the given cycle bit; reading it back yields the
/// same fields. Used to drive the ring protocol from simulated
/// hardware.
pub fn encode_transfer_event(e: TransferEventTrb, cycle: bool) -> (r: UnknownTRB)
    requires
        e.endpoint_id < 32,
    ensures
        r.cycle_bit_spec() == cycle,
        r.trb_type_spec() == TRB_TYPE_TRANSFER_EVENT,
        spec_decode_event(r) == EventTrb::Transfer(e),
{
    let c: u32 = if cycle {
        1
    } else {
        0
    };
    let d0: u32 = (e.trb_pointer & 0xffff_ffff) as u32;
    let d1: u32 = (e.trb_pointer >> 32) as u32;
    let d2: u32 = (e.completion_code as u32) << 24;
    let d3: u32 = (TRB_TYPE_TRANSFER_EVENT << 10) | ((e.endpoint_id as u32) << 16) | (
    (e.slot_id as u32) << 24) | c;
    proof {
        lemma_u64_split(e.trb_pointer);
        lemma_shl24_roundtrip(e.completion_code as u32);
        lemma_pack_d3(TRB_TYPE_TRANSFER_EVENT, e.endpoint_id as u32, e.slot_id as u32, c);
    }
    UnknownTRB { d0, d1, d2, d3 }
}

/// Packs a command completion event as the controller writes it.
pub fn encode_command_completion(e: CommandCompletionTrb, cycle: bool) -> (r: UnknownTRB)
    ensures
        r.cycle_bit_spec() == cycle,
        r.trb_type_spec() == TRB_TYPE_COMMAND_COMPLETION,
        spec_decode_event(r) == EventTrb::CommandCompletion(e),
{
    let c: u32 = if cycle {
        1
    } else {
        0
    };
    let d0: u32 = (e.command_trb_pointer & 0xffff_ffff) as u32;
    let d1: u32 = (e.command_trb_pointer >> 32) as u32;
    let d2: u32 = (e.completion_code as u32) << 24;
    let d3: u32 = (TRB_TYPE_COMMAND_COMPLETION << 10) | (0u32 << 16) | ((e.slot_id as u32) << 24)
        | c;
    proof {
        lemma_u64_split(e.command_trb_pointer);
        lemma_shl24_roundtrip(e.completion_code as u32);
        lemma_pack_d3(TRB_TYPE_COMMAND_COMPLETION, 0, e.slot_id as u32, c);
    }
    UnknownTRB { d0, d1, d2, d3 }
}

/// Packs a port status change event as the controller writes it.
pub fn encode_port_status_change(e: PortStatusChangeTrb, cycle: bool) -> (r: UnknownTRB)
    ensures
        r.cycle_bit_spec() == cycle,
        r.trb_type_spec() == TRB_TYPE_PORT_STATUS_CHANGE,
        spec_decode_event(r) == EventTrb::PortStatusChange(e),
{
    let c: u32 = if cycle {
        1
    } else {
        0
    };
    let d0: u32 = (e.port_id as u32) << 24;
    let d3: u32 = (TRB_TYPE_PORT_STATUS_CHANGE << 10) | (0u32 << 16) | (0u32 << 24) | c;
    proof {
        lemma_shl24_roundtrip(e.port_id as u32);
        lemma_pack_d3(TRB_TYPE_PORT_STATUS_CHANGE, 0, 0, c);
    }
    UnknownTRB { d0, d1: 0, d2: 0, d3 }
}

/// The MMIO base of the controller: BAR0 with its low four flag
/// bits masked off.
pub fn mmio_base_of_bar(bar: u64) -> (r: u64)
    ensures
        r == bar & 0xffff_ffff_ffff_fff0,
{
    bar & 0xffff_ffff_ffff_fff0
}

/// The CRCR value that publishes the command ring: its base address
/// with ring-cycle-state 1.
pub fn crcr_value(ring_base: u64) -> (r: u64)
    ensures
        r == ring_base | 1,
{
    ring_base | 1
}

/// The controller's page size: bit `n` of the PAGESIZE register set
/// means pages of `2^(n + 12)` bytes; the caller hands in the lowest
/// set bit's index.
pub fn xhci_page_size(pagesize_bit: usize) -> (r: u64)
    requires
        pagesize_bit <= 16,
    ensures
        r == 1u64 << ((12 + pagesize_bit) as u64),
{
    1u64 << ((12 + pagesize_bit) as u64)
}

/// One extended-capability header, as read from the controller's
/// MMIO extended-capabilities list.
#[derive(Clone, Copy, Debug, PartialEq, Eq, Structural)]
pub struct XhciCapability {
    pub cap_id: u8,
    pub next_cap_ptr: u8,
    pub cap_specific: u16,
}

impl XhciCapability {
    /// Where the next capability header sits: `next_cap_ptr` chains
    /// in 32-bit words from this header's own address; zero ends the
    /// list.
    pub fn next_addr(&self, cap_addr: u64) -> (r: Option<u64>)
        requires
            cap_addr + 1020 <= u64::MAX,
        ensures
            self.next_cap_ptr == 0 ==> r is None,
            self.next_cap_ptr != 0 ==> r == Some((cap_addr + self.next_cap_ptr * 4) as u64),
    {
        if self.next_cap_ptr == 0 {
            None
        } else {
            Some(cap_addr + (self.next_cap_ptr as u64) * 4)
        }
    }
}

/// The USB-legacy-support capability word with the OS-owned
/// semaphore (bit 8) raised, asking the BIOS to let go.
pub fn os_owned_write(cap_specific: u16) -> (r: u16)
    ensures
        r == cap_specific | 0x100,
{
    cap_specific | 0x100
}

/// Whether the BIOS/OS handoff has finished: the BIOS-owned
/// semaphore (bit 0) clear and the OS-owned semaphore (bit 8) set.
pub fn handoff_done(cap_specific: u16) -> (r: bool)
    ensures
        r == (cap_specific & 1 == 0 && (cap_specific >> 8) & 1 == 1),
{
    cap_specific & 1 == 0 && (cap_specific >> 8) & 1 == 1
}

/// The legacy control/status word with every SMI source turned off
/// and the write-1-to-clear status bits written back set.
pub fn smi_disable_write(ctl_sts: u32) -> (r: u32)
    ensures
        r == (ctl_sts & 0xffff1fee) | 0xe0000000,
{
    (ctl_sts & 0xffff1fee) | 0xe0000000
}

/// The errors the driver surfaces. A transfer that completes with a
/// code other than Success or ShortPacket becomes `TransferError`; a
/// failed AddressDevice command carries its completion event.
#[derive(Clone, Copy, Debug, PartialEq, Eq, Structural)]
pub enum XhciError {
    InvalidTrb,
    RingIsFull,
    InvalidCommandCompletionTrb,
    AddressDeviceCommandFailed(CommandCompletionTrb),
    UnexpectedDescriptor,
    TransferError(TransferEventTrb),
}

} // verus!
