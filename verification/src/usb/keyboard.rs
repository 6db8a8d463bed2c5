//! The boot-protocol keyboard class driver: its report layout and
//! the decisions of its subscription loop. Ringing doorbells and
//! awaiting transfer events is the caller's loop.

use vstd::prelude::*;

use crate::usb::key::ModifierSet;
use crate::usb::transfer_ring::{ControlRequestType, SetupData};
use crate::usb::trb::{spec_normal_trb, normal_trb, UnknownTRB};
use crate::usb::usbd::{Descriptor, UsbInterfaceAlternate};

verus! {

/// A boot-protocol keyboard report: the modifier byte, a reserved
/// byte, and up to six key codes.
#[derive(Clone, Copy, Debug, Default)]
pub struct KeyReport {
    pub modifier: ModifierSet,
    pub _rsvd: u8,
    pub keycodes: [u8; 6],
}

/// The keyboard class driver of one interface: which slot, which
/// interface, and the DCI of its interrupt-in endpoint.
pub struct KeyboardClass {
    pub slot_id: usize,
    pub interface: u8,
    pub dci: usize,
}

/// The first endpoint record among an alternate's descriptors, if
/// any: the class drivers subscribe on it.
pub open spec fn spec_first_endpoint(ds: Seq<Descriptor>) -> Option<
    crate::usb::usbd::EndpointDescriptor,
>
    decreases ds.len(),
{
    if ds.len() == 0 {
        None
    } else {
        match ds[0] {
            Descriptor::Endpoint(e) => Some(e),
            _ => spec_first_endpoint(ds.drop_first()),
        }
    }
}

/// Finds the first endpoint record of an alternate.
pub fn first_endpoint(ds: &Vec<Descriptor>) -> (r: Option<crate::usb::usbd::EndpointDescriptor>)
    ensures
        r == spec_first_endpoint(ds@),
{
    let mut i: usize = 0;
    let n = ds.len();
    proof {
        assert(ds@.skip(0) =~= ds@);
    }
    while i < n
        invariant
            i <= n,
            n == ds@.len(),
            spec_first_endpoint(ds@) == spec_first_endpoint(ds@.skip(i as int)),
        decreases n - i,
    {
        proof {
            assert(ds@.skip(i as int)[0] == ds@[i as int]);
            assert(ds@.skip(i as int).drop_first() =~= ds@.skip(i as int + 1));
        }
        match &ds[i] {
            Descriptor::Endpoint(e) => {
                return Some(*e);
            },
            _ => {},
        }
        i = i + 1;
    }
    None
}

impl KeyboardClass {
    /// Binds the keyboard driver to an alternate: its first endpoint
    /// carries the reports; an alternate without endpoints has no
    /// keyboard to drive.
    pub fn new(slot_id: usize, interface: &UsbInterfaceAlternate) -> (r: Option<Self>)
        ensures
            match spec_first_endpoint(interface.endpoints@) {
                Some(e) => r is Some && r.unwrap().slot_id == slot_id && r.unwrap().interface
                    == interface.interface_num && r.unwrap().dci == e.calc_dci_spec(),
                None => r is None,
            },
    {
        let ep = first_endpoint(&interface.endpoints);
        match ep {
            Some(e) => Some(KeyboardClass {
                slot_id,
                interface: interface.interface_num,
                dci: e.calc_dci(),
            }),
            None => None,
        }
    }

    /// The SET_PROTOCOL request that engages the boot protocol on
    /// this interface: value 0, index the interface, no data.
    pub fn initialize_request(&self) -> (r: SetupData)
        ensures
            r == (SetupData {
                request_type: ControlRequestType::SetProtocol,
                value: 0,
                index: self.interface as u16,
                length: 0,
            }),
    {
        SetupData {
            request_type: ControlRequestType::SetProtocol,
            value: 0,
            index: self.interface as u16,
            length: 0,
        }
    }

    /// The Normal TRB of one report subscription: an 8-byte read
    /// into the report buffer at `buffer_addr`, with a completion
    /// interrupt. The caller pushes it on `(slot_id, dci)` and rings
    /// that doorbell.
    pub fn subscribe_trb(&self, buffer_addr: u64) -> (r: UnknownTRB)
        ensures
            r == spec_normal_trb(buffer_addr, 8),
    {
        normal_trb(buffer_addr, 8)
    }
}

} // verus!
