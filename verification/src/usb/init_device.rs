//! The per-port addressing pipeline: reacting to port status
//! changes, serialising resets so that only one port at a time holds
//! default address 0, and building the input context for the
//! AddressDevice command.
//!
//! The decisions live here; performing each action — the PORTSC
//! writes, pushing the commands, awaiting their completions — is the
//! caller's loop.

use vstd::prelude::*;

use crate::usb::device::{
    spec_zero_endpoint_context, spec_zero_slot_context, ContextSize, EndpointContext,
    EndpointType, InputContext, SlotContext,
};
use crate::usb::xhci::{CommandCompletionTrb, XhciError};
use crate::usb::trb::COMPLETION_CODE_SUCCESS;

verus! {

/// PORTSC: current connect status.
pub open spec fn portsc_ccs(portsc: u32) -> bool {
    portsc & 1u32 != 0
}

/// PORTSC: connect status change.
pub open spec fn portsc_csc(portsc: u32) -> bool {
    portsc & (1u32 << 17) != 0
}

/// PORTSC: port reset change.
pub open spec fn portsc_prc(portsc: u32) -> bool {
    portsc & (1u32 << 21) != 0
}

/// PORTSC: port speed field.
pub open spec fn portsc_speed(portsc: u32) -> u8 {
    ((portsc >> 10) & 0xf) as u8
}

/// The write-1-to-clear change bits of PORTSC, plus the
/// port-enabled bit (also cleared by writing 1): a read-modify-write
/// must write them as 0 so nothing is cleared by accident.
pub const PORTSC_RW1C_MASK: u32 = 0x00fe0002;

/// The PORTSC word that clears only the connect-status-change bit:
/// every write-1-to-clear bit is written 0 except CSC.
pub open spec fn spec_clear_csc_write(portsc: u32) -> u32 {
    (portsc & !PORTSC_RW1C_MASK) | (1u32 << 17)
}

pub fn clear_csc_write(portsc: u32) -> (r: u32)
    ensures
        r == spec_clear_csc_write(portsc),
{
    (portsc & !PORTSC_RW1C_MASK) | (1u32 << 17)
}

/// The PORTSC word that clears only the port-reset-change bit.
pub open spec fn spec_clear_port_reset_write(portsc: u32) -> u32 {
    (portsc & !PORTSC_RW1C_MASK) | (1u32 << 21)
}

pub fn clear_port_reset_write(portsc: u32) -> (r: u32)
    ensures
        r == spec_clear_port_reset_write(portsc),
{
    (portsc & !PORTSC_RW1C_MASK) | (1u32 << 21)
}

/// The PORTSC word that starts a port reset without clearing any
/// change bit.
pub open spec fn spec_set_port_reset_write(portsc: u32) -> u32 {
    (portsc & !PORTSC_RW1C_MASK) | (1u32 << 4)
}

pub fn set_port_reset_write(portsc: u32) -> (r: u32)
    ensures
        r == spec_set_port_reset_write(portsc),
{
    (portsc & !PORTSC_RW1C_MASK) | (1u32 << 4)
}

/// What the caller's loop does next for a port.
#[derive(Clone, Copy, Debug, PartialEq, Eq, Structural)]
pub enum PortAction {
    /// Write-clear the connect-status-change bit of the port.
    ClearConnectStatusChange(usize),
    /// Write-clear the port-reset-change bit, then run the
    /// enable-slot / address-device pipeline for the port.
    BeginAddressing(usize),
    /// Write-clear all change bits and set port reset.
    ResetPort(usize),
}

/// The serialised addressing pipeline: the port being reset or
/// addressed right now (holder of device address 0), and the ports
/// waiting their turn.
pub struct DeviceInitAction {
    pub current_port: Option<usize>,
    pub waiting_port: Vec<usize>,
}

impl DeviceInitAction {
    pub fn new() -> (r: Self)
        ensures
            r.current_port is None,
            r.waiting_port@ == Seq::<usize>::empty(),
    {
        DeviceInitAction { current_port: None, waiting_port: Vec::new() }
    }

    /// One step of the addressing state machine for a port status
    /// change on `port_id`, deciding from the port's PORTSC value: a
    /// fresh connection queues the port (clearing its CSC bit); a
    /// finished reset of the port under addressing begins the
    /// enable-slot / address-device pipeline; and whenever no port
    /// holds the pipeline, the oldest waiting port takes it and is
    /// reset.
    pub fn on_port_status_change(&mut self, port_id: usize, portsc: u32) -> (actions: Vec<
        PortAction,
    >)
        ensures
            ({
                let queued = portsc_csc(portsc) && portsc_ccs(portsc);
                let reset_done = !queued && portsc_prc(portsc);
                let begins = reset_done && old(self).current_port == Some(port_id);
                let waiting1 = if queued {
                    old(self).waiting_port@.push(port_id)
                } else {
                    old(self).waiting_port@
                };
                let takes = old(self).current_port is None && waiting1.len() > 0;
                &&& final(self).current_port == (if takes {
                    Some(waiting1[0])
                } else {
                    old(self).current_port
                })
                &&& final(self).waiting_port@ == (if takes {
                    waiting1.drop_first()
                } else {
                    waiting1
                })
                &&& actions@ == {
                    let first: Seq<PortAction> = if queued {
                        seq![PortAction::ClearConnectStatusChange(port_id)]
                    } else if begins {
                        seq![PortAction::BeginAddressing(port_id)]
                    } else if reset_done {
                        seq![PortAction::ClearConnectStatusChange(port_id)].drop_first()
                    } else {
                        Seq::empty()
                    };
                    if takes {
                        first.push(PortAction::ResetPort(waiting1[0] as usize))
                    } else {
                        first
                    }
                }
            }),
    {
        let mut actions: Vec<PortAction> = Vec::new();

        let ccs = portsc & 1u32 != 0;
        let csc = portsc & (1u32 << 17) != 0;
        let prc = portsc & (1u32 << 21) != 0;

        if csc && ccs {
            actions.push(PortAction::ClearConnectStatusChange(port_id));
            self.waiting_port.push(port_id);
        } else if prc {
            let begins = match self.current_port {
                Some(p) => p == port_id,
                None => false,
            };
            if begins {
                actions.push(PortAction::BeginAddressing(port_id));
            }
        }

        if self.current_port.is_none() && self.waiting_port.len() > 0 {
            let next = self.waiting_port.remove(0);
            self.current_port = Some(next);
            actions.push(PortAction::ResetPort(next));
        }

        proof {
            assert(actions@ =~= ({
                let queued = portsc_csc(portsc) && portsc_ccs(portsc);
                let reset_done = !queued && portsc_prc(portsc);
                let begins = reset_done && old(self).current_port == Some(port_id);
                let waiting1 = if queued {
                    old(self).waiting_port@.push(port_id)
                } else {
                    old(self).waiting_port@
                };
                let takes = old(self).current_port is None && waiting1.len() > 0;
                let first: Seq<PortAction> = if queued {
                    seq![PortAction::ClearConnectStatusChange(port_id)]
                } else if begins {
                    seq![PortAction::BeginAddressing(port_id)]
                } else if reset_done {
                    seq![PortAction::ClearConnectStatusChange(port_id)].drop_first()
                } else {
                    Seq::empty()
                };
                if takes {
                    first.push(PortAction::ResetPort(waiting1[0] as usize))
                } else {
                    first
                }
            }));
        }
        actions
    }
}

/// Fills the slot context for AddressDevice: the one-based root-hub
/// port number, an empty route string, one context entry and the
/// speed the port reported.
pub fn config_slot_context(slot: &mut SlotContext, port_id: usize, speed: u8)
    requires
        port_id + 1 <= u8::MAX,
    ensures
        *final(slot) == (SlotContext {
            route_string: 0,
            root_hub_port_number: (port_id + 1) as u8,
            context_entries: 1,
            interrupter_target: old(slot).interrupter_target,
            speed: speed,
        }),
{
    slot.root_hub_port_number = (port_id + 1) as u8;
    slot.route_string = 0;
    slot.context_entries = 1;
    slot.speed = speed;
}

/// Max packet size of the default control pipe by port speed:
/// low-speed 8, full- and high-speed 64, SuperSpeed 512.
pub open spec fn spec_default_max_packet_size(speed: u8) -> u16 {
    if speed == 1 {
        64
    } else if speed == 2 {
        8
    } else if speed == 3 {
        64
    } else if speed == 4 {
        512
    } else {
        8
    }
}

/// Fills endpoint context 1 as the default control pipe: control
/// type, speed-dependent max packet size, the transfer ring's base
/// as dequeue pointer with cycle state 1, and error count 3.
pub fn config_default_control_pipe(pipe: &mut EndpointContext, speed: u8, tr_deque_ptr: u64)
    ensures
        *final(pipe) == (EndpointContext {
            endpoint_type: EndpointType::Control,
            max_packet_size: spec_default_max_packet_size(speed),
            max_burst_size: 0,
            tr_dequeue_pointer: tr_deque_ptr,
            dequeue_cycle_state: true,
            interval: 0,
            max_primary_streams: 0,
            mult: 0,
            error_count: 3,
        }),
{
    let max_packet_size: u16 = if speed == 1 {
        64
    } else if speed == 2 {
        8
    } else if speed == 3 {
        64
    } else if speed == 4 {
        512
    } else {
        8
    };

    pipe.endpoint_type = EndpointType::Control;
    pipe.max_packet_size = max_packet_size;
    pipe.max_burst_size = 0;
    pipe.tr_dequeue_pointer = tr_deque_ptr;
    pipe.dequeue_cycle_state = true;
    pipe.interval = 0;
    pipe.max_primary_streams = 0;
    pipe.mult = 0;
    pipe.error_count = 3;
}

/// Builds the input context for AddressDevice (xHCI device slot
/// initialisation): add-context flags 0 and 1, the slot context for
/// the port, and endpoint 1 as the default control pipe over the
/// transfer ring at `deque_ptr`. The context's DMA image lives at
/// `input_ctx_addr`.
pub fn prepare_input_ctx_for_address_device(
    port_id: usize,
    deque_ptr: u64,
    ctx_size: ContextSize,
    speed: u8,
    input_ctx_addr: u64,
) -> (r: InputContext)
    requires
        port_id + 1 <= u8::MAX,
    ensures
        r.wf(),
        r.get_size_spec() == ctx_size,
        r.address_spec() == input_ctx_addr,
        r.handler_spec().control_add_flags == (0u32 | (1u32 << 0)) | (1u32 << 1),
        r.handler_spec().device.slot == (SlotContext {
            route_string: 0,
            root_hub_port_number: (port_id + 1) as u8,
            context_entries: 1,
            interrupter_target: 0,
            speed: speed,
        }),
        r.handler_spec().device.endpoints@[1] == (EndpointContext {
            endpoint_type: EndpointType::Control,
            max_packet_size: spec_default_max_packet_size(speed),
            max_burst_size: 0,
            tr_dequeue_pointer: deque_ptr,
            dequeue_cycle_state: true,
            interval: 0,
            max_primary_streams: 0,
            mult: 0,
            error_count: 3,
        }),
        forall|i: int|
            2 <= i < 32 ==> r.handler_spec().device.endpoints@[i] == spec_zero_endpoint_context(),
{
    let mut input_ctx = InputContext::new(ctx_size, input_ctx_addr);

    let handler = input_ctx.handler_mut();
    handler.set_add_context_flag(0);
    handler.set_add_context_flag(1);

    config_slot_context(&mut handler.device.slot, port_id, speed);

    let mut pipe = handler.device.endpoints[1];
    config_default_control_pipe(&mut pipe, speed, deque_ptr);
    handler.device.endpoints.set(1, pipe);

    input_ctx
}

/// The AddressDevice decision: a Success completion addresses the
/// device, any other completion code aborts this port's pipeline
/// with `AddressDeviceCommandFailed`.
pub fn address_device_result(completion: CommandCompletionTrb) -> (r: Result<(), XhciError>)
    ensures
        completion.completion_code == COMPLETION_CODE_SUCCESS <==> r is Ok,
        r is Err ==> r == Err::<(), XhciError>(
            XhciError::AddressDeviceCommandFailed(completion),
        ),
{
    if completion.completion_code == COMPLETION_CODE_SUCCESS {
        Ok(())
    } else {
        Err(XhciError::AddressDeviceCommandFailed(completion))
    }
}

} // verus!
