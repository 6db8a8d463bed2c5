//! Transfer Request Blocks: the 16-byte unit of communication between
//! host and controller on every ring.
//!
//! A TRB is four 32-bit words. The cycle bit is bit 0 of the fourth
//! word (bit 96 of the block) and the 6-bit TRB type sits at bits
//! 10..16 of the fourth word (bits 106..112 of the block). All ring
//! entries share this header; each variant packs its payload into the
//! remaining bits as the xHCI specification lays them out.

use vstd::prelude::*;

verus! {

pub const TRB_TYPE_NORMAL: u32 = 1;
pub const TRB_TYPE_SETUP_STAGE: u32 = 2;
pub const TRB_TYPE_DATA_STAGE: u32 = 3;
pub const TRB_TYPE_STATUS_STAGE: u32 = 4;
pub const TRB_TYPE_LINK: u32 = 6;
pub const TRB_TYPE_ENABLE_SLOT: u32 = 9;
pub const TRB_TYPE_DISABLE_SLOT: u32 = 10;
pub const TRB_TYPE_ADDRESS_DEVICE: u32 = 11;
pub const TRB_TYPE_CONFIGURE_ENDPOINT: u32 = 12;
pub const TRB_TYPE_TRANSFER_EVENT: u32 = 32;
pub const TRB_TYPE_COMMAND_COMPLETION: u32 = 33;
pub const TRB_TYPE_PORT_STATUS_CHANGE: u32 = 34;

/// Transfer type field of a SETUP stage TRB: no data stage.
pub const TRANSFER_TYPE_NO: u32 = 0;
/// Transfer type field of a SETUP stage TRB: OUT data stage follows.
pub const TRANSFER_TYPE_OUT: u32 = 2;
/// Transfer type field of a SETUP stage TRB: IN data stage follows.
pub const TRANSFER_TYPE_IN: u32 = 3;

/// xHCI completion code: the transfer or command succeeded.
pub const COMPLETION_CODE_SUCCESS: u8 = 1;
/// xHCI completion code: the transfer ended early without error.
pub const COMPLETION_CODE_SHORT_PACKET: u8 = 13;

/// A TRB whose variant has not been examined yet, exactly as it sits
/// in a ring.
#[derive(Clone, Copy, Debug, PartialEq, Eq, Structural)]
pub struct UnknownTRB {
    pub d0: u32,
    pub d1: u32,
    pub d2: u32,
    pub d3: u32,
}

/// The cycle bit of a TRB whose fourth word is `d3`.
pub open spec fn trb_cycle_of(d3: u32) -> bool {
    d3 & 1 == 1
}

/// The 6-bit type of a TRB whose fourth word is `d3`.
pub open spec fn trb_type_of(d3: u32) -> u32 {
    (d3 >> 10) & 0x3f
}

impl UnknownTRB {
    pub open spec fn cycle_bit_spec(self) -> bool {
        trb_cycle_of(self.d3)
    }

    pub open spec fn trb_type_spec(self) -> u32 {
        trb_type_of(self.d3)
    }

    /// The fourth word after forcing the cycle bit to `cycle`.
    pub open spec fn spec_with_cycle(self, cycle: bool) -> UnknownTRB {
        UnknownTRB { d3: if cycle { self.d3 | 1 } else { self.d3 & 0xffff_fffe }, ..self }
    }

    pub fn zeroed() -> (r: Self)
        ensures
            r == (UnknownTRB { d0: 0, d1: 0, d2: 0, d3: 0 }),
    {
        UnknownTRB { d0: 0, d1: 0, d2: 0, d3: 0 }
    }

    pub fn cycle_bit(&self) -> (r: bool)
        ensures
            r == self.cycle_bit_spec(),
    {
        self.d3 & 1 == 1
    }

    pub fn trb_type(&self) -> (r: u32)
        ensures
            r == self.trb_type_spec(),
    {
        (self.d3 >> 10) & 0x3f
    }

    pub fn set_cycle_bit(&mut self, cycle: bool)
        ensures
            *final(self) == old(self).spec_with_cycle(cycle),
            final(self).cycle_bit_spec() == cycle,
            final(self).trb_type_spec() == old(self).trb_type_spec(),
    {
        proof {
            let d = self.d3;
            assert(trb_cycle_of(d | 1) && trb_type_of(d | 1) == trb_type_of(d)) by (bit_vector);
            assert(!trb_cycle_of(d & 0xffff_fffe) && trb_type_of(d & 0xffff_fffe) == trb_type_of(d))
                by (bit_vector);
        }
        if cycle {
            self.d3 = self.d3 | 1;
        } else {
            self.d3 = self.d3 & 0xffff_fffe;
        }
    }
}

impl Default for UnknownTRB {
    fn default() -> (r: Self)
        ensures
            r == (UnknownTRB { d0: 0, d1: 0, d2: 0, d3: 0 }),
    {
        UnknownTRB { d0: 0, d1: 0, d2: 0, d3: 0 }
    }
}

/// The Link TRB placed at the tail of a producer ring: it points back
/// at `base` and carries the toggle-cycle flag (bit 1 of the fourth
/// word), so that passing it flips the producer's cycle state.
pub open spec fn spec_link_trb(base: u64) -> UnknownTRB {
    UnknownTRB {
        d0: (base & 0xffff_ffff) as u32,
        d1: (base >> 32) as u32,
        d2: 0,
        d3: (TRB_TYPE_LINK << 10) | 2,
    }
}

proof fn lemma_ioc_or3(b: u32, c: u32, d: u32)
    by (bit_vector)
    ensures
        ((((1u32 << 5) | b) | c | d) >> 5) & 1 == 1,
{
}

proof fn lemma_ioc_or2(b: u32, c: u32)
    by (bit_vector)
    ensures
        ((((1u32 << 5) | b) | c) >> 5) & 1 == 1,
{
}

proof fn lemma_ioc_after_isp(c: u32, d: u32)
    by (bit_vector)
    ensures
        (((((1u32 << 2) | (1u32 << 5)) | c) | d) >> 5) & 1 == 1,
{
}

/// A SETUP stage TRB: the 8 setup bytes ride immediately in the
/// first two words (immediate-data bit set, transfer length 8), with
/// the transfer-type field saying whether and which way a data stage
/// follows. The driver always asks for completion interrupts.
pub open spec fn spec_setup_stage_trb(
    request_type: u8,
    request: u8,
    value: u16,
    index: u16,
    length: u16,
    transfer_type: u32,
) -> UnknownTRB {
    UnknownTRB {
        d0: (request_type as u32) | ((request as u32) << 8) | ((value as u32) << 16),
        d1: (index as u32) | ((length as u32) << 16),
        d2: 8,
        d3: (1u32 << 5) | (1u32 << 6) | (TRB_TYPE_SETUP_STAGE << 10) | (transfer_type << 16),
    }
}

pub fn setup_stage_trb(
    request_type: u8,
    request: u8,
    value: u16,
    index: u16,
    length: u16,
    transfer_type: u32,
) -> (r: UnknownTRB)
    requires
        transfer_type == TRANSFER_TYPE_NO || transfer_type == TRANSFER_TYPE_OUT
            || transfer_type == TRANSFER_TYPE_IN,
    ensures
        r == spec_setup_stage_trb(request_type, request, value, index, length, transfer_type),
        r.trb_type_spec() == TRB_TYPE_SETUP_STAGE,
        (r.d3 >> 5) & 1 == 1,
{
    proof {
        let tt = transfer_type;
        assert(tt <= 3 ==> trb_type_of(
            (1u32 << 5) | (1u32 << 6) | (TRB_TYPE_SETUP_STAGE << 10) | (tt << 16),
        ) == TRB_TYPE_SETUP_STAGE) by (bit_vector);
        lemma_ioc_or3(1u32 << 6, TRB_TYPE_SETUP_STAGE << 10, transfer_type << 16);
    }
    UnknownTRB {
        d0: (request_type as u32) | ((request as u32) << 8) | ((value as u32) << 16),
        d1: (index as u32) | ((length as u32) << 16),
        d2: 8,
        d3: (1u32 << 5) | (1u32 << 6) | (TRB_TYPE_SETUP_STAGE << 10) | (transfer_type << 16),
    }
}

/// A DATA stage TRB: buffer address, transfer length, direction (bit
/// 16 set = in), with interrupt-on-short-packet and
/// interrupt-on-completion set as the driver always does.
pub open spec fn spec_data_stage_trb(buffer: u64, length: u16, direction_in: bool) -> UnknownTRB {
    UnknownTRB {
        d0: (buffer & 0xffff_ffff) as u32,
        d1: (buffer >> 32) as u32,
        d2: length as u32,
        d3: (1u32 << 2) | (1u32 << 5) | (TRB_TYPE_DATA_STAGE << 10) | (if direction_in {
            1u32 << 16
        } else {
            0
        }),
    }
}

pub fn data_stage_trb(buffer: u64, length: u16, direction_in: bool) -> (r: UnknownTRB)
    ensures
        r == spec_data_stage_trb(buffer, length, direction_in),
        (r.d3 >> 5) & 1 == 1,
{
    proof {
        let dir: u32 = if direction_in {
            1u32 << 16
        } else {
            0
        };
        lemma_ioc_after_isp(TRB_TYPE_DATA_STAGE << 10, dir);
    }
    UnknownTRB {
        d0: (buffer & 0xffff_ffff) as u32,
        d1: (buffer >> 32) as u32,
        d2: length as u32,
        d3: (1u32 << 2) | (1u32 << 5) | (TRB_TYPE_DATA_STAGE << 10) | (if direction_in {
            1u32 << 16
        } else {
            0
        }),
    }
}

/// A STATUS stage TRB: direction (bit 16 set = in) and
/// interrupt-on-completion.
pub open spec fn spec_status_stage_trb(direction_in: bool) -> UnknownTRB {
    UnknownTRB {
        d0: 0,
        d1: 0,
        d2: 0,
        d3: (1u32 << 5) | (TRB_TYPE_STATUS_STAGE << 10) | (if direction_in {
            1u32 << 16
        } else {
            0
        }),
    }
}

pub fn status_stage_trb(direction_in: bool) -> (r: UnknownTRB)
    ensures
        r == spec_status_stage_trb(direction_in),
        (r.d3 >> 5) & 1 == 1,
{
    proof {
        let dir: u32 = if direction_in {
            1u32 << 16
        } else {
            0
        };
        lemma_ioc_or2(TRB_TYPE_STATUS_STAGE << 10, dir);
    }
    UnknownTRB {
        d0: 0,
        d1: 0,
        d2: 0,
        d3: (1u32 << 5) | (TRB_TYPE_STATUS_STAGE << 10) | (if direction_in {
            1u32 << 16
        } else {
            0
        }),
    }
}

/// A Normal transfer TRB with interrupt-on-completion, as the HID
/// subscription uses for its report buffer.
pub open spec fn spec_normal_trb(buffer: u64, length: u32) -> UnknownTRB {
    UnknownTRB {
        d0: (buffer & 0xffff_ffff) as u32,
        d1: (buffer >> 32) as u32,
        d2: length,
        d3: (1u32 << 5) | (TRB_TYPE_NORMAL << 10),
    }
}

pub fn normal_trb(buffer: u64, length: u32) -> (r: UnknownTRB)
    ensures
        r == spec_normal_trb(buffer, length),
        (r.d3 >> 5) & 1 == 1,
{
    proof {
        assert((((1u32 << 5) | (1u32 << 10)) >> 5) & 1 == 1) by (bit_vector);
    }
    UnknownTRB {
        d0: (buffer & 0xffff_ffff) as u32,
        d1: (buffer >> 32) as u32,
        d2: length,
        d3: (1u32 << 5) | (TRB_TYPE_NORMAL << 10),
    }
}

/// An Enable Slot command TRB.
pub open spec fn spec_enable_slot_trb() -> UnknownTRB {
    UnknownTRB { d0: 0, d1: 0, d2: 0, d3: TRB_TYPE_ENABLE_SLOT << 10 }
}

pub fn enable_slot_trb() -> (r: UnknownTRB)
    ensures
        r == spec_enable_slot_trb(),
{
    UnknownTRB { d0: 0, d1: 0, d2: 0, d3: TRB_TYPE_ENABLE_SLOT << 10 }
}

/// An Address Device command TRB: input-context pointer, slot id in
/// the top byte of the fourth word, and the block-set-address-request
/// flag at bit 9.
pub open spec fn spec_address_device_trb(input_ctx_ptr: u64, slot_id: u8, bsr: bool) -> UnknownTRB {
    UnknownTRB {
        d0: (input_ctx_ptr & 0xffff_ffff) as u32,
        d1: (input_ctx_ptr >> 32) as u32,
        d2: 0,
        d3: (TRB_TYPE_ADDRESS_DEVICE << 10) | ((slot_id as u32) << 24) | (if bsr {
            1u32 << 9
        } else {
            0
        }),
    }
}

pub fn address_device_trb(input_ctx_ptr: u64, slot_id: u8, bsr: bool) -> (r: UnknownTRB)
    ensures
        r == spec_address_device_trb(input_ctx_ptr, slot_id, bsr),
{
    UnknownTRB {
        d0: (input_ctx_ptr & 0xffff_ffff) as u32,
        d1: (input_ctx_ptr >> 32) as u32,
        d2: 0,
        d3: (TRB_TYPE_ADDRESS_DEVICE << 10) | ((slot_id as u32) << 24) | (if bsr {
            1u32 << 9
        } else {
            0
        }),
    }
}

/// A Configure Endpoint command TRB: input-context pointer and slot
/// id.
pub open spec fn spec_configure_endpoint_trb(input_ctx_ptr: u64, slot_id: u8) -> UnknownTRB {
    UnknownTRB {
        d0: (input_ctx_ptr & 0xffff_ffff) as u32,
        d1: (input_ctx_ptr >> 32) as u32,
        d2: 0,
        d3: (TRB_TYPE_CONFIGURE_ENDPOINT << 10) | ((slot_id as u32) << 24),
    }
}

pub fn configure_endpoint_trb(input_ctx_ptr: u64, slot_id: u8) -> (r: UnknownTRB)
    ensures
        r == spec_configure_endpoint_trb(input_ctx_ptr, slot_id),
{
    UnknownTRB {
        d0: (input_ctx_ptr & 0xffff_ffff) as u32,
        d1: (input_ctx_ptr >> 32) as u32,
        d2: 0,
        d3: (TRB_TYPE_CONFIGURE_ENDPOINT << 10) | ((slot_id as u32) << 24),
    }
}

pub fn link_trb(base: u64) -> (r: UnknownTRB)
    ensures
        r == spec_link_trb(base),
        r.trb_type_spec() == TRB_TYPE_LINK,
        !r.cycle_bit_spec(),
{
    let d3: u32 = (TRB_TYPE_LINK << 10) | 2;
    proof {
        assert(trb_type_of((TRB_TYPE_LINK << 10) | 2) == TRB_TYPE_LINK
            && !trb_cycle_of((TRB_TYPE_LINK << 10) | 2)) by (bit_vector);
    }
    UnknownTRB {
        d0: (base & 0xffff_ffff) as u32,
        d1: (base >> 32) as u32,
        d2: 0,
        d3,
    }
}

} // verus!
