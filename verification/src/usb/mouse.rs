//! The boot-protocol mouse class driver: its report layout and the
//! decisions of its subscription loop.

use vstd::prelude::*;

use crate::usb::keyboard::{first_endpoint, spec_first_endpoint};
use crate::usb::transfer_ring::{ControlRequestType, SetupData};
use crate::usb::trb::{spec_normal_trb, normal_trb, UnknownTRB};
use crate::usb::usbd::UsbInterfaceAlternate;

verus! {

/// A boot-protocol mouse report: buttons and the two relative
/// movement bytes.
#[derive(Clone, Copy, Debug, Default, PartialEq, Eq, Structural)]
pub struct MouseReport {
    pub buttons: u8,
    pub dx: i8,
    pub dy: i8,
}

impl MouseReport {
    pub fn dx(&self) -> (r: i8)
        ensures
            r == self.dx,
    {
        self.dx
    }

    pub fn dy(&self) -> (r: i8)
        ensures
            r == self.dy,
    {
        self.dy
    }

    pub fn buttons(&self) -> (r: u8)
        ensures
            r == self.buttons,
    {
        self.buttons
    }
}

/// The mouse class driver of one interface.
pub struct MouseClass {
    pub slot_id: usize,
    pub interface: u8,
    pub dci: usize,
}

impl MouseClass {
    /// Binds the mouse driver to an alternate: its first endpoint
    /// carries the reports.
    pub fn new(slot_id: usize, interface: &UsbInterfaceAlternate) -> (r: Option<Self>)
        ensures
            match spec_first_endpoint(interface.endpoints@) {
                Some(e) => r is Some && r.unwrap().slot_id == slot_id && r.unwrap().interface
                    == interface.interface_num && r.unwrap().dci == e.calc_dci_spec(),
                None => r is None,
            },
    {
        let ep = first_endpoint(&interface.endpoints);
        match ep {
            Some(e) => Some(MouseClass {
                slot_id,
                interface: interface.interface_num,
                dci: e.calc_dci(),
            }),
            None => None,
        }
    }

    /// The SET_PROTOCOL request that engages the boot protocol on
    /// this interface.
    pub fn initialize_request(&self) -> (r: SetupData)
        ensures
            r == (SetupData {
                request_type: ControlRequestType::SetProtocol,
                value: 0,
                index: self.interface as u16,
                length: 0,
            }),
    {
        SetupData {
            request_type: ControlRequestType::SetProtocol,
            value: 0,
            index: self.interface as u16,
            length: 0,
        }
    }

    /// The Normal TRB of one report subscription: an 8-byte read
    /// into the report buffer at `buffer_addr`.
    pub fn subscribe_trb(&self, buffer_addr: u64) -> (r: UnknownTRB)
        ensures
            r == spec_normal_trb(buffer_addr, 8),
    {
        normal_trb(buffer_addr, 8)
    }
}

} // verus!
