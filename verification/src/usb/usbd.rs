//! The USB device driver's data: standard descriptors parsed from
//! the configuration block a GET_DESCRIPTOR request returns, the
//! walk that cuts the block into tagged records, the grammar that
//! groups them into configurations, interfaces and alternates, and
//! the decisions of the configuration pipeline.

use vstd::prelude::*;

use crate::usb::transfer_ring::{ControlRequestType, SetupData, TransferRingSet};
use crate::usb::trb::UnknownTRB;
use crate::usb::xhci::XhciError;

verus! {

/// The standard device descriptor (18 bytes).
#[derive(Clone, Copy, Debug, PartialEq, Eq, Structural)]
pub struct DeviceDescriptor {
    pub length: u8,
    pub descriptor_type: u8,
    pub bcd_usb: u16,
    pub device_class: u8,
    pub device_sub_class: u8,
    pub device_protocol: u8,
    pub max_packet_size_0: u8,
    pub id_vendor: u16,
    pub id_product: u16,
    pub bcd_device: u16,
    pub i_manufacturer: u8,
    pub i_product: u8,
    pub i_serial_number: u8,
    pub b_num_configurations: u8,
}

/// The standard configuration descriptor (9 bytes).
#[derive(Clone, Copy, Debug, PartialEq, Eq, Structural)]
pub struct ConfigurationDescriptor {
    pub length: u8,
    pub descriptor_type: u8,
    pub total_length: u16,
    pub num_interfaces: u8,
    pub configuration_value: u8,
    pub i_configuration: u8,
    pub bm_attributes: u8,
    pub max_power: u8,
}

/// The standard interface descriptor (9 bytes).
#[derive(Clone, Copy, Debug, PartialEq, Eq, Structural)]
pub struct InterfaceDescriptor {
    pub length: u8,
    pub descriptor_type: u8,
    pub interface_number: u8,
    pub alternate_setting: u8,
    pub num_endpoints: u8,
    pub interface_class: u8,
    pub interface_subclass: u8,
    pub interface_protocol: u8,
    pub i_interface: u8,
}

/// The standard endpoint descriptor (7 bytes).
#[derive(Clone, Copy, Debug, PartialEq, Eq, Structural)]
pub struct EndpointDescriptor {
    pub length: u8,
    pub descriptor_type: u8,
    pub endpoint_addr: u8,
    pub bm_attributes: u8,
    pub max_packet_size: u16,
    pub interval: u8,
}

impl EndpointDescriptor {
    /// The Device Context Index of this endpoint: twice the endpoint
    /// number plus one for the in direction.
    pub open spec fn calc_dci_spec(self) -> int {
        (2 * (self.endpoint_addr & 0b1111) + (self.endpoint_addr >> 7)) as int
    }

    pub fn calc_dci(&self) -> (r: usize)
        ensures
            r == self.calc_dci_spec(),
            r < 32,
    {
        let addr = self.endpoint_addr;
        proof {
            assert(2 * (addr & 0b1111) + (addr >> 7) < 32) by (bit_vector);
        }
        let ep_num = (addr & 0b1111) as usize;
        let direction = (addr >> 7) as usize;
        2 * ep_num + direction
    }
}

/// The HID class descriptor (9 bytes).
#[derive(Clone, Copy, Debug, PartialEq, Eq, Structural)]
pub struct HidDescriptor {
    pub length: u8,
    pub descriptor_type: u8,
    pub bcd_hid: u16,
    pub country_code: u8,
    pub num_descriptors: u8,
    pub class_descriptor_type: u8,
    pub class_descriptor_length: u16,
}

/// A record of a type this driver does not interpret: its header is
/// kept so the walk can step over it.
#[derive(Clone, Copy, Debug, PartialEq, Eq, Structural)]
pub struct UnknownDescriptor {
    pub length: u8,
    pub descriptor_type: u8,
}

/// One record of a configuration block, tagged by its type byte.
#[derive(Clone, Copy, Debug, PartialEq, Eq, Structural)]
pub enum Descriptor {
    Configuration(ConfigurationDescriptor),
    Interface(InterfaceDescriptor),
    Endpoint(EndpointDescriptor),
    Hid(HidDescriptor),
    Unknown(UnknownDescriptor),
}

pub open spec fn spec_le_u16_at(b: Seq<u8>, off: int) -> u16 {
    (b[off] as u16) | ((b[off + 1] as u16) << 8)
}

pub open spec fn spec_parse_configuration(b: Seq<u8>, off: int) -> ConfigurationDescriptor {
    ConfigurationDescriptor {
        length: b[off],
        descriptor_type: b[off + 1],
        total_length: spec_le_u16_at(b, off + 2),
        num_interfaces: b[off + 4],
        configuration_value: b[off + 5],
        i_configuration: b[off + 6],
        bm_attributes: b[off + 7],
        max_power: b[off + 8],
    }
}

pub open spec fn spec_parse_interface(b: Seq<u8>, off: int) -> InterfaceDescriptor {
    InterfaceDescriptor {
        length: b[off],
        descriptor_type: b[off + 1],
        interface_number: b[off + 2],
        alternate_setting: b[off + 3],
        num_endpoints: b[off + 4],
        interface_class: b[off + 5],
        interface_subclass: b[off + 6],
        interface_protocol: b[off + 7],
        i_interface: b[off + 8],
    }
}

pub open spec fn spec_parse_endpoint(b: Seq<u8>, off: int) -> EndpointDescriptor {
    EndpointDescriptor {
        length: b[off],
        descriptor_type: b[off + 1],
        endpoint_addr: b[off + 2],
        bm_attributes: b[off + 3],
        max_packet_size: spec_le_u16_at(b, off + 4),
        interval: b[off + 6],
    }
}

pub open spec fn spec_parse_hid(b: Seq<u8>, off: int) -> HidDescriptor {
    HidDescriptor {
        length: b[off],
        descriptor_type: b[off + 1],
        bcd_hid: spec_le_u16_at(b, off + 2),
        country_code: b[off + 4],
        num_descriptors: b[off + 5],
        class_descriptor_type: b[off + 6],
        class_descriptor_length: spec_le_u16_at(b, off + 7),
    }
}

/// The device descriptor read from an 18-byte GET_DESCRIPTOR(DEVICE)
/// answer.
pub open spec fn spec_parse_device(b: Seq<u8>, off: int) -> DeviceDescriptor {
    DeviceDescriptor {
        length: b[off],
        descriptor_type: b[off + 1],
        bcd_usb: spec_le_u16_at(b, off + 2),
        device_class: b[off + 4],
        device_sub_class: b[off + 5],
        device_protocol: b[off + 6],
        max_packet_size_0: b[off + 7],
        id_vendor: spec_le_u16_at(b, off + 8),
        id_product: spec_le_u16_at(b, off + 10),
        bcd_device: spec_le_u16_at(b, off + 12),
        i_manufacturer: b[off + 14],
        i_product: b[off + 15],
        i_serial_number: b[off + 16],
        b_num_configurations: b[off + 17],
    }
}

pub fn parse_device_descriptor(b: &Vec<u8>, off: usize) -> (r: DeviceDescriptor)
    requires
        off + 18 <= b@.len(),
    ensures
        r == spec_parse_device(b@, off as int),
{
    let n = b.len();
    DeviceDescriptor {
        length: b[off],
        descriptor_type: b[off + 1],
        bcd_usb: (b[off + 2] as u16) | ((b[off + 3] as u16) << 8),
        device_class: b[off + 4],
        device_sub_class: b[off + 5],
        device_protocol: b[off + 6],
        max_packet_size_0: b[off + 7],
        id_vendor: (b[off + 8] as u16) | ((b[off + 9] as u16) << 8),
        id_product: (b[off + 10] as u16) | ((b[off + 11] as u16) << 8),
        bcd_device: (b[off + 12] as u16) | ((b[off + 13] as u16) << 8),
        i_manufacturer: b[off + 14],
        i_product: b[off + 15],
        i_serial_number: b[off + 16],
        b_num_configurations: b[off + 17],
    }
}

/// What one step of the configuration-block walk yields at `off`: a
/// zero-length record or a truncated buffer ends the walk; a record
/// of a known type whose fixed image fits is parsed; everything else
/// is kept as an unknown record. The next offset is always the
/// current one plus the record's length byte.
pub open spec fn spec_read_descriptor(b: Seq<u8>, off: int) -> Option<(Descriptor, int)> {
    if off >= b.len() {
        None
    } else {
        let length = b[off] as int;
        if length == 0 || off + length > b.len() || length < 2 {
            None
        } else {
            let ty = b[off + 1];
            let desc = if ty == 2 && off + 9 <= b.len() {
                Descriptor::Configuration(spec_parse_configuration(b, off))
            } else if ty == 4 && off + 9 <= b.len() {
                Descriptor::Interface(spec_parse_interface(b, off))
            } else if ty == 5 && off + 7 <= b.len() {
                Descriptor::Endpoint(spec_parse_endpoint(b, off))
            } else if ty == 33 && off + 9 <= b.len() {
                Descriptor::Hid(spec_parse_hid(b, off))
            } else {
                Descriptor::Unknown(UnknownDescriptor { length: b[off], descriptor_type: ty })
            };
            Some((desc, off + length))
        }
    }
}

/// Reads the record at `off` and says where the next one starts.
pub fn read_descriptor(buf: &Vec<u8>, off: usize) -> (r: Option<(Descriptor, usize)>)
    ensures
        ({
            match spec_read_descriptor(buf@, off as int) {
                None => r is None,
                Some((d, next)) => r == Some((d, next as usize)),
            }
        }),
{
    let n = buf.len();
    if off >= n {
        return None;
    }
    let length = buf[off] as usize;
    if length == 0 || length > n - off || length < 2 {
        return None;
    }
    let ty = buf[off + 1];
    let desc = if ty == 2 && 9 <= n - off {
        Descriptor::Configuration(ConfigurationDescriptor {
            length: buf[off],
            descriptor_type: buf[off + 1],
            total_length: (buf[off + 2] as u16) | ((buf[off + 3] as u16) << 8),
            num_interfaces: buf[off + 4],
            configuration_value: buf[off + 5],
            i_configuration: buf[off + 6],
            bm_attributes: buf[off + 7],
            max_power: buf[off + 8],
        })
    } else if ty == 4 && 9 <= n - off {
        Descriptor::Interface(InterfaceDescriptor {
            length: buf[off],
            descriptor_type: buf[off + 1],
            interface_number: buf[off + 2],
            alternate_setting: buf[off + 3],
            num_endpoints: buf[off + 4],
            interface_class: buf[off + 5],
            interface_subclass: buf[off + 6],
            interface_protocol: buf[off + 7],
            i_interface: buf[off + 8],
        })
    } else if ty == 5 && 7 <= n - off {
        Descriptor::Endpoint(EndpointDescriptor {
            length: buf[off],
            descriptor_type: buf[off + 1],
            endpoint_addr: buf[off + 2],
            bm_attributes: buf[off + 3],
            max_packet_size: (buf[off + 4] as u16) | ((buf[off + 5] as u16) << 8),
            interval: buf[off + 6],
        })
    } else if ty == 33 && 9 <= n - off {
        Descriptor::Hid(HidDescriptor {
            length: buf[off],
            descriptor_type: buf[off + 1],
            bcd_hid: (buf[off + 2] as u16) | ((buf[off + 3] as u16) << 8),
            country_code: buf[off + 4],
            num_descriptors: buf[off + 5],
            class_descriptor_type: buf[off + 6],
            class_descriptor_length: (buf[off + 7] as u16) | ((buf[off + 8] as u16) << 8),
        })
    } else {
        Descriptor::Unknown(UnknownDescriptor { length: buf[off], descriptor_type: ty })
    };
    Some((desc, off + length))
}

/// The records of a configuration block from `off` up to `end`, in
/// order, as the walk reads them.
pub open spec fn spec_descriptors_from(b: Seq<u8>, off: int, fuel: nat) -> Seq<Descriptor>
    decreases fuel,
{
    if fuel == 0 {
        Seq::empty()
    } else {
        match spec_read_descriptor(b, off) {
            None => Seq::empty(),
            Some((d, next)) => seq![d] + spec_descriptors_from(b, next, (fuel - 1) as nat),
        }
    }
}

/// Walks a whole configuration block into its records, up to
/// `total_len` bytes (the block's wTotalLength).
pub fn read_config_descriptors(buf: &Vec<u8>, total_len: usize) -> (r: Vec<Descriptor>)
    ensures
        r@ == spec_descriptors_from(
            buf@.take(if total_len <= buf@.len() {
                total_len as int
            } else {
                buf@.len() as int
            }),
            0,
            buf@.len() + 1,
        ),
{
    let end = if total_len <= buf.len() {
        total_len
    } else {
        buf.len()
    };
    // the walk reads only inside [0, end)
    let mut limited: Vec<u8> = Vec::new();
    let mut i: usize = 0;
    while i < end
        invariant
            i <= end,
            end <= buf@.len(),
            limited@.len() == i,
            forall|j: int| 0 <= j < i ==> limited@[j] == buf@[j],
        decreases end - i,
    {
        limited.push(buf[i]);
        i = i + 1;
    }
    proof {
        assert(limited@ =~= buf@.take(end as int));
    }

    let ghost lb = limited@;
    let ghost full_fuel = buf@.len() + 1;
    let mut descs: Vec<Descriptor> = Vec::new();
    let mut off: usize = 0;
    let ghost mut steps: int = 0;

    loop
        invariant
            limited@ == lb,
            lb.len() <= buf@.len(),
            0 <= steps <= off,
            off <= lb.len() + 1,
            full_fuel == buf@.len() + 1,
            spec_descriptors_from(lb, 0, full_fuel) == descs@ + spec_descriptors_from(
                lb,
                off as int,
                (full_fuel - steps) as nat,
            ),
        ensures
            descs@ == spec_descriptors_from(lb, 0, full_fuel),
        decreases lb.len() + 1 - off,
    {
        match read_descriptor(&limited, off) {
            None => {
                proof {
                    assert(spec_descriptors_from(lb, off as int, (full_fuel - steps) as nat)
                        =~= Seq::<Descriptor>::empty());
                }
                break;
            },
            Some((d, next)) => {
                proof {
                    let rest = spec_descriptors_from(lb, next as int, (full_fuel - steps
                        - 1) as nat);
                    assert(spec_descriptors_from(lb, off as int, (full_fuel - steps) as nat)
                        == seq![d] + rest);
                    assert(descs@ + (seq![d] + rest) =~= descs@.push(d) + rest);
                }
                descs.push(d);
                proof {
                    steps = steps + 1;
                }
                off = next;
            },
        }
    }
    proof {
        assert(descs@ == spec_descriptors_from(buf@.take(if total_len <= buf@.len() {
            total_len as int
        } else {
            buf@.len() as int
        }), 0, full_fuel));
    }
    descs
}

/// Interface and configuration records bound a run of endpoint and
/// class descriptors.
pub open spec fn is_boundary(d: Descriptor) -> bool {
    d is Interface || d is Configuration
}

/// The first boundary record at or after `i`; the length if none.
pub open spec fn next_boundary(ds: Seq<Descriptor>, i: int) -> int
    decreases ds.len() - i
        when 0 <= i <= ds.len()
{
    if i >= ds.len() {
        i
    } else if is_boundary(ds[i]) {
        i
    } else {
        next_boundary(ds, i + 1)
    }
}

pub proof fn lemma_next_boundary_char(ds: Seq<Descriptor>, i: int)
    requires
        0 <= i <= ds.len(),
    ensures
        i <= next_boundary(ds, i) <= ds.len(),
        forall|j: int| i <= j < next_boundary(ds, i) ==> !is_boundary(ds[j]),
        next_boundary(ds, i) < ds.len() ==> is_boundary(ds[next_boundary(ds, i)]),
    decreases ds.len() - i,
{
    if i < ds.len() && !is_boundary(ds[i]) {
        lemma_next_boundary_char(ds, i + 1);
    }
}

pub open spec fn spec_interface_of(d: Descriptor) -> InterfaceDescriptor {
    match d {
        Descriptor::Interface(x) => x,
        _ => InterfaceDescriptor {
            length: 0,
            descriptor_type: 0,
            interface_number: 0,
            alternate_setting: 0,
            num_endpoints: 0,
            interface_class: 0,
            interface_subclass: 0,
            interface_protocol: 0,
            i_interface: 0,
        },
    }
}

/// One alternate setting as the grammar reads it: an interface
/// record and the run of records up to the next boundary — unless
/// that boundary is a configuration record, which ends the grammar
/// with a malformed-block answer.
pub open spec fn spec_parse_alt(ds: Seq<Descriptor>, start: int) -> Option<
    (InterfaceDescriptor, Seq<Descriptor>, int),
> {
    if !(0 <= start < ds.len()) || !(ds[start] is Interface) {
        None
    } else {
        let nb = next_boundary(ds, start + 1);
        if nb < ds.len() && ds[nb] is Configuration {
            None
        } else {
            Some((spec_interface_of(ds[start]), ds.subrange(start + 1, nb), nb))
        }
    }
}

/// One alternate setting, in ghost form.
#[verifier::ext_equal]
pub ghost struct AltRec {
    pub intf: InterfaceDescriptor,
    pub eps: Seq<Descriptor>,
}

/// One interface: its number and its alternates, in ghost form.
#[verifier::ext_equal]
pub ghost struct IntfRec {
    pub num: u8,
    pub alts: Seq<AltRec>,
}

/// The run of alternates of interface `num` starting at `i`, and
/// where it ends: alternates are collected while they parse and
/// carry the same interface number.
pub open spec fn spec_parse_alts(ds: Seq<Descriptor>, i: int, num: u8) -> (Seq<AltRec>, int)
    decreases ds.len() - i
        when 0 <= i <= ds.len()
{
    match spec_parse_alt(ds, i) {
        None => (Seq::empty(), i),
        Some((idesc, eps, nb)) => {
            if idesc.interface_number != num || !(i < nb <= ds.len()) {
                (Seq::empty(), i)
            } else {
                let rest = spec_parse_alts(ds, nb, num);
                (seq![AltRec { intf: idesc, eps }] + rest.0, rest.1)
            }
        },
    }
}

pub proof fn lemma_parse_alts_end(ds: Seq<Descriptor>, i: int, num: u8)
    requires
        0 <= i <= ds.len(),
    ensures
        i <= spec_parse_alts(ds, i, num).1 <= ds.len(),
    decreases ds.len() - i,
{
    match spec_parse_alt(ds, i) {
        None => {},
        Some((idesc, eps, nb)) => {
            lemma_next_boundary_char(ds, i + 1);
            if idesc.interface_number == num && i < nb <= ds.len() {
                lemma_parse_alts_end(ds, nb, num);
            }
        },
    }
}

/// The interfaces of a configuration block from `i` on: each begins
/// at an interface record and swallows its run of alternates.
pub open spec fn spec_parse_intfs(ds: Seq<Descriptor>, i: int) -> Seq<IntfRec>
    decreases ds.len() - i
        when 0 <= i <= ds.len()
{
    match spec_parse_alt(ds, i) {
        None => Seq::empty(),
        Some((idesc, eps, nb)) => {
            let num = idesc.interface_number;
            let parsed = spec_parse_alts(ds, i, num);
            if !(i < parsed.1 <= ds.len()) {
                Seq::empty()
            } else {
                seq![IntfRec { num, alts: parsed.0 }] + spec_parse_intfs(ds, parsed.1)
            }
        },
    }
}

/// One alternate setting of an interface: its class triple and the
/// endpoint and class-specific records that belong to it.
pub struct UsbInterfaceAlternate {
    pub endpoints: Vec<Descriptor>,
    pub interface_num: u8,
    pub alternate_setting_num: u8,
    pub class: u8,
    pub subclass: u8,
    pub protocol: u8,
    pub i_interface: u8,
}

/// Whether an alternate value carries exactly the ghost record.
pub open spec fn alt_matches(a: UsbInterfaceAlternate, rec: AltRec) -> bool {
    &&& a.interface_num == rec.intf.interface_number
    &&& a.alternate_setting_num == rec.intf.alternate_setting
    &&& a.class == rec.intf.interface_class
    &&& a.subclass == rec.intf.interface_subclass
    &&& a.protocol == rec.intf.interface_protocol
    &&& a.i_interface == rec.intf.i_interface
    &&& a.endpoints@ == rec.eps
}

impl UsbInterfaceAlternate {
    pub fn new(desc: InterfaceDescriptor, endpoints: Vec<Descriptor>) -> (r: Self)
        ensures
            alt_matches(r, AltRec { intf: desc, eps: endpoints@ }),
    {
        UsbInterfaceAlternate {
            endpoints,
            interface_num: desc.interface_number,
            alternate_setting_num: desc.alternate_setting,
            class: desc.interface_class,
            subclass: desc.interface_subclass,
            protocol: desc.interface_protocol,
            i_interface: desc.i_interface,
        }
    }

    pub fn interface_num(&self) -> (r: u8)
        ensures
            r == self.interface_num,
    {
        self.interface_num
    }

    pub fn endpoints(&self) -> (r: &Vec<Descriptor>)
        ensures
            r@ == self.endpoints@,
    {
        &self.endpoints
    }
}

/// One interface: its number and its alternate settings.
pub struct UsbInterface {
    pub alternates: Vec<UsbInterfaceAlternate>,
    pub interface_num: u8,
}

pub open spec fn intf_matches(it: UsbInterface, rec: IntfRec) -> bool {
    &&& it.interface_num == rec.num
    &&& it.alternates@.len() == rec.alts.len()
    &&& forall|k: int| 0 <= k < rec.alts.len() ==> alt_matches(#[trigger] it.alternates@[k], rec.alts[k])
}

impl UsbInterface {
    pub fn new(interface_num: u8, alternates: Vec<UsbInterfaceAlternate>) -> (r: Self)
        ensures
            r.interface_num == interface_num,
            r.alternates@ == alternates@,
    {
        UsbInterface { interface_num, alternates }
    }

    pub fn interface_num(&self) -> (r: u8)
        ensures
            r == self.interface_num,
    {
        self.interface_num
    }
}

/// One configuration: its descriptor fields and its interfaces.
pub struct UsbConfiguration {
    pub interfaces: Vec<UsbInterface>,
    pub configuration_val: u8,
    pub i_configuration: u8,
    pub bm_attributes: u8,
    pub max_power: u8,
}

impl UsbConfiguration {
    pub fn new(desc: &ConfigurationDescriptor, interfaces: Vec<UsbInterface>) -> (r: Self)
        ensures
            r.interfaces@ == interfaces@,
            r.configuration_val == desc.configuration_value,
            r.i_configuration == desc.i_configuration,
            r.bm_attributes == desc.bm_attributes,
            r.max_power == desc.max_power,
    {
        UsbConfiguration {
            interfaces,
            configuration_val: desc.configuration_value,
            i_configuration: desc.i_configuration,
            bm_attributes: desc.bm_attributes,
            max_power: desc.max_power,
        }
    }
}

fn is_boundary_desc(d: &Descriptor) -> (r: bool)
    ensures
        r == is_boundary(*d),
{
    match d {
        Descriptor::Interface(_) => true,
        Descriptor::Configuration(_) => true,
        _ => false,
    }
}

/// Cuts one alternate setting out of the record list: the interface
/// record at `start` and everything up to the next interface or
/// configuration record. A configuration record in that run means
/// the block is malformed and nothing is returned, as when `start`
/// does not sit on an interface record.
pub fn construct_interface_alternate(ds: &Vec<Descriptor>, start: usize) -> (r: Option<
    (UsbInterfaceAlternate, usize),
>)
    requires
        start <= ds@.len(),
    ensures
        match spec_parse_alt(ds@, start as int) {
            None => r is None,
            Some((idesc, eps, nb)) => r is Some && alt_matches(
                r.unwrap().0,
                AltRec { intf: idesc, eps },
            ) && r.unwrap().1 == nb,
        },
{
    if start >= ds.len() {
        return None;
    }
    let intf_desc = match &ds[start] {
        Descriptor::Interface(d) => *d,
        _ => {
            return None;
        },
    };

    let n = ds.len();
    let mut nb: usize = start + 1;
    while nb < n && !is_boundary_desc(&ds[nb])
        invariant
            start + 1 <= nb <= n,
            n == ds@.len(),
            forall|j: int| start + 1 <= j < nb ==> !is_boundary(ds@[j]),
        decreases n - nb,
    {
        nb = nb + 1;
    }
    proof {
        lemma_next_boundary_char(ds@, start as int + 1);
        let snb = next_boundary(ds@, start as int + 1);
        if snb < nb {
            assert(!is_boundary(ds@[snb]));
            assert(false);
        }
        if nb < snb {
            assert(!is_boundary(ds@[nb as int]));
            assert(false);
        }
    }

    if nb < n {
        let ends_grammar = match &ds[nb] {
            Descriptor::Configuration(_) => true,
            _ => false,
        };
        if ends_grammar {
            return None;
        }
    }

    let mut eps: Vec<Descriptor> = Vec::new();
    let mut j: usize = start + 1;
    while j < nb
        invariant
            start + 1 <= j <= nb <= ds@.len(),
            eps@ == ds@.subrange(start as int + 1, j as int),
        decreases nb - j,
    {
        eps.push(ds[j]);
        proof {
            assert(eps@ =~= ds@.subrange(start as int + 1, j + 1));
        }
        j = j + 1;
    }

    Some((UsbInterfaceAlternate::new(intf_desc, eps), nb))
}

/// Groups the run of alternates that share the interface number of
/// the interface record at `start`; the returned offset is where the
/// next interface (or anything else) begins. Nothing is returned
/// unless `start` sits on an interface record.
pub fn construct_interface(ds: &Vec<Descriptor>, start: usize) -> (r: Option<(UsbInterface, usize)>)
    requires
        start <= ds@.len(),
    ensures
        ({
            if start >= ds@.len() || !(ds@[start as int] is Interface) {
                r is None
            } else {
                let num = spec_interface_of(ds@[start as int]).interface_number;
                let parsed = spec_parse_alts(ds@, start as int, num);
                &&& r is Some
                &&& intf_matches(r.unwrap().0, IntfRec { num, alts: parsed.0 })
                &&& r.unwrap().1 == parsed.1
            }
        }),
{
    if start >= ds.len() {
        return None;
    }
    let intf_num = match &ds[start] {
        Descriptor::Interface(d) => d.interface_number,
        _ => {
            return None;
        },
    };
    let ghost total = spec_parse_alts(ds@, start as int, intf_num);

    let mut alts: Vec<UsbInterfaceAlternate> = Vec::new();
    let mut cursor: usize = start;

    loop
        invariant
            start <= cursor <= ds@.len(),
            total == spec_parse_alts(ds@, start as int, intf_num),
            total.0.len() == alts@.len() + spec_parse_alts(ds@, cursor as int, intf_num).0.len(),
            spec_parse_alts(ds@, cursor as int, intf_num).0 == total.0.skip(alts@.len() as int),
            spec_parse_alts(ds@, cursor as int, intf_num).1 == total.1,
            forall|k: int|
                0 <= k < alts@.len() ==> alt_matches(#[trigger] alts@[k], total.0[k]),
        ensures
            cursor == total.1,
            alts@.len() == total.0.len(),
            forall|k: int|
                0 <= k < alts@.len() ==> alt_matches(#[trigger] alts@[k], total.0[k]),
        decreases ds@.len() - cursor,
    {
        let step = construct_interface_alternate(ds, cursor);
        let ghost at_cursor = spec_parse_alts(ds@, cursor as int, intf_num);
        match step {
            None => {
                proof {
                    assert(at_cursor.0 =~= Seq::<AltRec>::empty());
                    assert(total.0.skip(alts@.len() as int) =~= Seq::<AltRec>::empty());
                }
                break;
            },
            Some((alt, next)) => {
                if alt.interface_num != intf_num {
                    proof {
                        assert(at_cursor.0 =~= Seq::<AltRec>::empty());
                        assert(total.0.skip(alts@.len() as int) =~= Seq::<AltRec>::empty());
                    }
                    break;
                }
                proof {
                    lemma_next_boundary_char(ds@, cursor as int + 1);
                    let (idesc, eps, nb) = spec_parse_alt(ds@, cursor as int).unwrap();
                    let rec = AltRec { intf: idesc, eps };
                    let rest = spec_parse_alts(ds@, next as int, intf_num);
                    assert(at_cursor.0 == seq![rec] + rest.0);
                    let k = alts@.len() as int;
                    assert(total.0.skip(k)[0] == rec);
                    assert(total.0[k] == rec);
                    assert((seq![rec] + rest.0).drop_first() =~= rest.0);
                    assert(total.0.skip(k).drop_first() =~= total.0.skip(k + 1));
                    assert(rest.0 =~= total.0.skip(k + 1));
                }
                alts.push(alt);
                cursor = next;
            },
        }
    }

    Some((UsbInterface::new(intf_num, alts), cursor))
}

/// A block of records opens a configuration: nonempty, with a
/// configuration record at the front.
pub open spec fn spec_config_block_ok(ds: Seq<Descriptor>) -> bool {
    ds.len() > 0 && ds[0] is Configuration
}

/// Whether a configuration value carries exactly what the grammar
/// reads out of a block of records.
pub open spec fn config_matches(c: UsbConfiguration, ds: Seq<Descriptor>) -> bool {
    let conf = ds[0]->Configuration_0;
    let intfs = spec_parse_intfs(ds, 1);
    &&& c.configuration_val == conf.configuration_value
    &&& c.i_configuration == conf.i_configuration
    &&& c.bm_attributes == conf.bm_attributes
    &&& c.max_power == conf.max_power
    &&& c.interfaces@.len() == intfs.len()
    &&& forall|k: int|
        0 <= k < intfs.len() ==> intf_matches(#[trigger] c.interfaces@[k], intfs[k])
}

/// Groups a whole configuration block: the configuration record at
/// the front, then its interfaces one run of alternates at a time.
/// A malformed trailing piece that makes no progress ends the walk.
pub fn construct_configuration(ds: &Vec<Descriptor>) -> (r: Option<UsbConfiguration>)
    ensures
        r is Some <==> spec_config_block_ok(ds@),
        r is Some ==> config_matches(r.unwrap(), ds@),
{
    if ds.len() == 0 {
        return None;
    }
    let conf_desc = match &ds[0] {
        Descriptor::Configuration(c) => *c,
        _ => {
            return None;
        },
    };
    let ghost total = spec_parse_intfs(ds@, 1);

    let mut intfs: Vec<UsbInterface> = Vec::new();
    let mut cursor: usize = 1;

    loop
        invariant
            1 <= cursor <= ds@.len(),
            ds@.len() >= 1,
            total == spec_parse_intfs(ds@, 1),
            total.len() == intfs@.len() + spec_parse_intfs(ds@, cursor as int).len(),
            spec_parse_intfs(ds@, cursor as int) == total.skip(intfs@.len() as int),
            forall|k: int|
                0 <= k < intfs@.len() ==> intf_matches(#[trigger] intfs@[k], total[k]),
        ensures
            intfs@.len() == total.len(),
            forall|k: int|
                0 <= k < intfs@.len() ==> intf_matches(#[trigger] intfs@[k], total[k]),
        decreases ds@.len() - cursor,
    {
        let step = construct_interface(ds, cursor);
        let ghost rest = spec_parse_intfs(ds@, cursor as int);
        match step {
            None => {
                proof {
                    assert(rest =~= Seq::<IntfRec>::empty());
                    assert(total.skip(intfs@.len() as int) =~= Seq::<IntfRec>::empty());
                }
                break;
            },
            Some((intf, next)) => {
                if next <= cursor {
                    proof {
                        // no progress: the grammar stopped here
                        let num = spec_interface_of(ds@[cursor as int]).interface_number;
                        lemma_parse_alts_end(ds@, cursor as int, num);
                        if spec_parse_alt(ds@, cursor as int) is Some {
                            lemma_next_boundary_char(ds@, cursor as int + 1);
                        }
                        assert(rest =~= Seq::<IntfRec>::empty());
                        assert(total.skip(intfs@.len() as int) =~= Seq::<IntfRec>::empty());
                    }
                    break;
                }
                proof {
                    let num = spec_interface_of(ds@[cursor as int]).interface_number;
                    let parsed = spec_parse_alts(ds@, cursor as int, num);
                    lemma_parse_alts_end(ds@, cursor as int, num);
                    // progress means the first alternate parsed and matched
                    assert(spec_parse_alt(ds@, cursor as int) is Some);
                    let rec = IntfRec { num, alts: parsed.0 };
                    assert(rest == seq![rec] + spec_parse_intfs(ds@, parsed.1));
                    let k = intfs@.len() as int;
                    assert(total.skip(k)[0] == rec);
                    assert(total[k] == rec);
                    assert((seq![rec] + spec_parse_intfs(ds@, parsed.1)).drop_first()
                        =~= spec_parse_intfs(ds@, parsed.1));
                    assert(total.skip(k).drop_first() =~= total.skip(k + 1));
                    assert(spec_parse_intfs(ds@, parsed.1) =~= total.skip(k + 1));
                }
                intfs.push(intf);
                cursor = next;
            },
        }
    }

    Some(UsbConfiguration::new(&conf_desc, intfs))
}

/// Builds the device tree of a newly addressed slot from the
/// configuration blocks its descriptors produced: every block must
/// open with a configuration record, else the device surfaces
/// `UnexpectedDescriptor` and is left unconfigured.
pub fn construct_device(slot_id: usize, confdesc_arr: Vec<Vec<Descriptor>>) -> (r: Result<
    UsbDevice,
    XhciError,
>)
    ensures
        r is Ok <==> (forall|i: int|
            0 <= i < confdesc_arr@.len() ==> spec_config_block_ok(#[trigger] confdesc_arr@[i]@)),
        r is Err ==> r == Err::<UsbDevice, XhciError>(XhciError::UnexpectedDescriptor),
        r is Ok ==> ({
            let dev = r.unwrap();
            &&& dev.slot_id == slot_id
            &&& dev.config_selected is None
            &&& dev.alternates_selected@ == Seq::<u8>::empty()
            &&& dev.configs@.len() == confdesc_arr@.len()
            &&& forall|i: int|
                0 <= i < confdesc_arr@.len() ==> config_matches(
                    #[trigger] dev.configs@[i],
                    confdesc_arr@[i]@,
                )
        }),
{
    let mut conf_arr: Vec<UsbConfiguration> = Vec::new();
    let mut i: usize = 0;
    let n = confdesc_arr.len();
    while i < n
        invariant
            i <= n,
            n == confdesc_arr@.len(),
            conf_arr@.len() == i,
            forall|j: int|
                0 <= j < i ==> spec_config_block_ok(#[trigger] confdesc_arr@[j]@),
            forall|j: int|
                0 <= j < i ==> config_matches(#[trigger] conf_arr@[j], confdesc_arr@[j]@),
        decreases n - i,
    {
        match construct_configuration(&confdesc_arr[i]) {
            Some(conf) => {
                conf_arr.push(conf);
            },
            None => {
                return Err(XhciError::UnexpectedDescriptor);
            },
        }
        i = i + 1;
    }
    Ok(UsbDevice::new(slot_id, conf_arr))
}

/// A configured device: its slot, its configurations, and which
/// configuration and alternate settings are selected.
pub struct UsbDevice {
    pub slot_id: usize,
    pub configs: Vec<UsbConfiguration>,
    pub config_selected: Option<usize>,
    pub alternates_selected: Vec<u8>,
}

impl UsbDevice {
    pub fn new(slot_id: usize, configs: Vec<UsbConfiguration>) -> (r: Self)
        ensures
            r.slot_id == slot_id,
            r.configs@ == configs@,
            r.config_selected is None,
            r.alternates_selected@ == Seq::<u8>::empty(),
    {
        UsbDevice { slot_id, configs, config_selected: None, alternates_selected: Vec::new() }
    }

    /// Records a successful SET_CONFIGURATION: the configuration is
    /// selected and every interface starts at alternate setting 0.
    pub fn on_configuration_set(&mut self, config: usize)
        requires
            config < old(self).configs@.len(),
        ensures
            final(self).slot_id == old(self).slot_id,
            final(self).configs@ == old(self).configs@,
            final(self).config_selected == Some(config),
            final(self).alternates_selected@ == old(self).alternates_selected@ + Seq::new(
                old(self).configs@[config as int].interfaces@.len(),
                |i: int| 0u8,
            ),
    {
        self.config_selected = Some(config);
        let n = self.configs[config].interfaces.len();
        let mut i: usize = 0;
        while i < n
            invariant
                i <= n,
                self.slot_id == old(self).slot_id,
                self.configs@ == old(self).configs@,
                self.config_selected == Some(config),
                self.alternates_selected@ == old(self).alternates_selected@ + Seq::new(
                    i as nat,
                    |k: int| 0u8,
                ),
            decreases n - i,
        {
            self.alternates_selected.push(0);
            proof {
                assert(self.alternates_selected@ =~= old(self).alternates_selected@ + Seq::new(
                    (i + 1) as nat,
                    |k: int| 0u8,
                ));
            }
            i = i + 1;
        }
    }
}

impl UsbDevice {
    /// The SET_CONFIGURATION request that selects configuration
    /// `config`: its bConfigurationValue, no data.
    pub fn set_configuration_request(&self, config: usize) -> (r: SetupData)
        requires
            config < self.configs@.len(),
        ensures
            r == (SetupData {
                request_type: ControlRequestType::SetConfigutation,
                value: self.configs@[config as int].configuration_val as u16,
                index: 0,
                length: 0,
            }),
    {
        SetupData {
            request_type: ControlRequestType::SetConfigutation,
            value: self.configs[config].configuration_val as u16,
            index: 0,
            length: 0,
        }
    }

    /// The SET_INTERFACE request that selects `alternate_setting` on
    /// `interface`.
    pub fn set_interface_request(&self, interface: u16, alternate_setting: u16) -> (r: SetupData)
        ensures
            r == (SetupData {
                request_type: ControlRequestType::SetInterface,
                value: alternate_setting,
                index: interface,
                length: 0,
            }),
    {
        SetupData {
            request_type: ControlRequestType::SetInterface,
            value: alternate_setting,
            index: interface,
            length: 0,
        }
    }

    /// Records a successful SET_INTERFACE.
    pub fn on_interface_set(&mut self, interface: usize, alternate_setting: u8)
        requires
            interface < old(self).alternates_selected@.len(),
        ensures
            final(self).slot_id == old(self).slot_id,
            final(self).configs@ == old(self).configs@,
            final(self).config_selected == old(self).config_selected,
            final(self).alternates_selected@ == old(self).alternates_selected@.update(
                interface as int,
                alternate_setting,
            ),
    {
        self.alternates_selected.set(interface, alternate_setting);
    }
}

/// The GET_DESCRIPTOR(DEVICE) request: descriptor type 1, number 0,
/// the 18 descriptor bytes.
pub fn get_device_descriptor_request() -> (r: SetupData)
    ensures
        r == (SetupData {
            request_type: ControlRequestType::GetDescriptor,
            value: 0x0100,
            index: 0,
            length: 18,
        }),
{
    SetupData { request_type: ControlRequestType::GetDescriptor, value: 0x0100, index: 0, length: 18 }
}

/// The GET_DESCRIPTOR(CONFIGURATION) request for configuration
/// index `i_conf`, reading `buf_sz` bytes (first a 64-byte probe,
/// then the block's full length).
pub fn get_config_descriptor_request(i_conf: u8, buf_sz: u16) -> (r: SetupData)
    ensures
        r == (SetupData {
            request_type: ControlRequestType::GetDescriptor,
            value: 0x0200u16 | (i_conf as u16),
            index: 0,
            length: buf_sz,
        }),
{
    SetupData {
        request_type: ControlRequestType::GetDescriptor,
        value: 0x0200u16 | (i_conf as u16),
        index: 0,
        length: buf_sz,
    }
}

/// Which HID class driver an interface's alternate 0 selects: class
/// 3, subclass 1 (boot protocol), protocol 2 is a mouse and protocol
/// 1 a keyboard.
#[derive(Clone, Copy, Debug, PartialEq, Eq, Structural)]
pub enum HidClassKind {
    Mouse,
    Keyboard,
    Other,
}

pub open spec fn spec_classify_interface(class: u8, subclass: u8, protocol: u8) -> HidClassKind {
    if class == 3 && subclass == 1 && protocol == 2 {
        HidClassKind::Mouse
    } else if class == 3 && subclass == 1 && protocol == 1 {
        HidClassKind::Keyboard
    } else {
        HidClassKind::Other
    }
}

pub fn classify_interface(class: u8, subclass: u8, protocol: u8) -> (r: HidClassKind)
    ensures
        r == spec_classify_interface(class, subclass, protocol),
{
    if class == 3 && subclass == 1 && protocol == 2 {
        HidClassKind::Mouse
    } else if class == 3 && subclass == 1 && protocol == 1 {
        HidClassKind::Keyboard
    } else {
        HidClassKind::Other
    }
}

/// The sizing decision of the configuration probe: the 64-byte probe
/// answer carries wTotalLength at bytes 2..4; a block no longer than
/// the probe is complete, a longer one must be fetched again at its
/// full length.
pub fn config_probe_outcome(buf: &Vec<u8>, buf_sz: usize) -> (r: Result<u16, u16>)
    requires
        buf@.len() >= 4,
    ensures
        ({
            let total = spec_le_u16_at(buf@, 2);
            if total < buf_sz {
                r == Err::<u16, u16>(total)
            } else {
                r == Ok::<u16, u16>(total)
            }
        }),
{
    let total: u16 = (buf[2] as u16) | ((buf[3] as u16) << 8);
    if (total as usize) < buf_sz {
        Err(total)
    } else {
        Ok(total)
    }
}

/// The endpoint descriptors among a run of records.
pub open spec fn endpoint_descs(ds: Seq<Descriptor>) -> Seq<EndpointDescriptor>
    decreases ds.len(),
{
    if ds.len() == 0 {
        Seq::empty()
    } else {
        match ds[0] {
            Descriptor::Endpoint(e) => seq![e] + endpoint_descs(ds.drop_first()),
            _ => endpoint_descs(ds.drop_first()),
        }
    }
}

/// Every interface's number indexes the selected-alternates table,
/// and its selected alternate exists.
pub open spec fn valid_selection(intfs: Seq<UsbInterface>, selected: Seq<u8>) -> bool {
    forall|i: int|
        0 <= i < intfs.len() ==> {
            let it = #[trigger] intfs[i];
            &&& (it.interface_num as int) < selected.len()
            &&& (selected[it.interface_num as int] as int) < it.alternates@.len()
        }
}

/// The endpoint descriptors of every interface's selected alternate,
/// interface by interface, in order.
pub open spec fn spec_selected_endpoints(intfs: Seq<UsbInterface>, selected: Seq<u8>) -> Seq<
    EndpointDescriptor,
>
    decreases intfs.len(),
{
    if intfs.len() == 0 {
        Seq::empty()
    } else {
        let it = intfs[0];
        let alt_idx = selected[it.interface_num as int] as int;
        endpoint_descs(it.alternates@[alt_idx].endpoints@) + spec_selected_endpoints(
            intfs.drop_first(),
            selected,
        )
    }
}

/// Collects the endpoint descriptors of the selected alternate of
/// every interface of the selected configuration.
pub fn selected_endpoints(intfs: &Vec<UsbInterface>, selected: &Vec<u8>) -> (r: Vec<
    EndpointDescriptor,
>)
    requires
        valid_selection(intfs@, selected@),
    ensures
        r@ == spec_selected_endpoints(intfs@, selected@),
{
    let mut out: Vec<EndpointDescriptor> = Vec::new();
    proof {
        assert(intfs@.skip(0) =~= intfs@);
        assert(Seq::<EndpointDescriptor>::empty() + spec_selected_endpoints(intfs@, selected@)
            =~= spec_selected_endpoints(intfs@, selected@));
    }
    let mut i: usize = 0;
    while i < intfs.len()
        invariant
            i <= intfs@.len(),
            valid_selection(intfs@, selected@),
            spec_selected_endpoints(intfs@, selected@) == out@ + spec_selected_endpoints(
                intfs@.skip(i as int),
                selected@,
            ),
        decreases intfs@.len() - i,
    {
        proof {
            assert(intfs@.skip(i as int)[0] == intfs@[i as int]);
            assert(intfs@.skip(i as int).drop_first() =~= intfs@.skip(i as int + 1));
        }
        let it = &intfs[i];
        let alt_idx = selected[it.interface_num as usize] as usize;
        let eps = &it.alternates[alt_idx].endpoints;
        let ghost out0 = out@;
        proof {
            assert(eps@.skip(0) =~= eps@);
            assert(out@.skip(out0.len() as int) =~= Seq::<EndpointDescriptor>::empty());
            assert(Seq::<EndpointDescriptor>::empty() + endpoint_descs(eps@) =~= endpoint_descs(
                eps@,
            ));
            assert(out@.take(out0.len() as int) =~= out0);
        }
        let mut m: usize = 0;
        while m < eps.len()
            invariant
                m <= eps@.len(),
                eps@ == intfs@[i as int].alternates@[selected@[intfs@[i as int].interface_num as int] as int].endpoints@,
                endpoint_descs(eps@) == (out@.skip(out0.len() as int)) + endpoint_descs(
                    eps@.skip(m as int),
                ),
                out@.take(out0.len() as int) == out0,
                out0.len() <= out@.len(),
            decreases eps@.len() - m,
        {
            proof {
                assert(eps@.skip(m as int)[0] == eps@[m as int]);
                assert(eps@.skip(m as int).drop_first() =~= eps@.skip(m as int + 1));
            }
            let ghost prev = out@;
            match &eps[m] {
                Descriptor::Endpoint(e) => {
                    let ep = *e;
                    out.push(ep);
                    proof {
                        assert(out@.skip(out0.len() as int) =~= prev.skip(
                            out0.len() as int,
                        ).push(ep));
                        assert((prev.skip(out0.len() as int).push(ep)) + endpoint_descs(
                            eps@.skip(m as int + 1),
                        ) =~= prev.skip(out0.len() as int) + (seq![ep] + endpoint_descs(
                            eps@.skip(m as int + 1),
                        )));
                    }
                },
                _ => {},
            }
            proof {
                assert(out@.take(out0.len() as int) =~= out0);
            }
            m = m + 1;
        }
        proof {
            assert(endpoint_descs(eps@.skip(eps@.len() as int)) =~= Seq::<
                EndpointDescriptor,
            >::empty());
            assert(out@ =~= out0 + out@.skip(out0.len() as int));
            assert(out@ + spec_selected_endpoints(intfs@.skip(i as int + 1), selected@)
                =~= out0 + (out@.skip(out0.len() as int) + spec_selected_endpoints(
                intfs@.skip(i as int + 1),
                selected@,
            )));
        }
        i = i + 1;
    }
    proof {
        assert(spec_selected_endpoints(intfs@.skip(intfs@.len() as int), selected@) =~= Seq::<
            EndpointDescriptor,
        >::empty());
        assert(out@ + Seq::<EndpointDescriptor>::empty() =~= out@);
    }
    out
}

/// The xHCI endpoint type of a descriptor: from its direction bit
/// and the transfer kind in the low two attribute bits; a control
/// endpoint regardless of direction.
pub open spec fn spec_endpoint_type_of(endpoint_addr: u8, bm_attributes: u8) -> crate::usb::device::EndpointType {
    let dir_in = endpoint_addr >> 7 == 1;
    let tt = bm_attributes & 3;
    if tt == 0 {
        crate::usb::device::EndpointType::Control
    } else if tt == 1 {
        if dir_in {
            crate::usb::device::EndpointType::IsochIn
        } else {
            crate::usb::device::EndpointType::IsochOut
        }
    } else if tt == 2 {
        if dir_in {
            crate::usb::device::EndpointType::BulkIn
        } else {
            crate::usb::device::EndpointType::BulkOut
        }
    } else {
        if dir_in {
            crate::usb::device::EndpointType::InterruptIn
        } else {
            crate::usb::device::EndpointType::InterruptOut
        }
    }
}

/// The endpoint context ConfigureEndpoint installs for a
/// descriptor, over the transfer ring at `ring_base`.
pub open spec fn spec_configured_ep(ep: EndpointDescriptor, ring_base: u64) -> crate::usb::device::EndpointContext {
    crate::usb::device::EndpointContext {
        endpoint_type: spec_endpoint_type_of(ep.endpoint_addr, ep.bm_attributes),
        max_packet_size: ep.max_packet_size,
        max_burst_size: 0,
        tr_dequeue_pointer: ring_base,
        dequeue_cycle_state: true,
        interval: ep.interval,
        max_primary_streams: 0,
        mult: 0,
        error_count: 3,
    }
}

/// The last position in `eps` whose endpoint maps to DCI `d`; -1
/// when none does. The last write wins in the input context.
pub open spec fn last_ep_index(eps: Seq<EndpointDescriptor>, d: int) -> int
    decreases eps.len(),
{
    if eps.len() == 0 {
        -1
    } else if eps.last().calc_dci_spec() == d {
        eps.len() - 1
    } else {
        last_ep_index(eps.drop_last(), d)
    }
}

pub proof fn lemma_last_ep_step(eps: Seq<EndpointDescriptor>, k: int, d: int)
    requires
        0 <= k < eps.len(),
    ensures
        eps[k].calc_dci_spec() == d ==> last_ep_index(eps.take(k + 1), d) == k,
        eps[k].calc_dci_spec() != d ==> last_ep_index(eps.take(k + 1), d) == last_ep_index(
            eps.take(k),
            d,
        ),
{
    assert(eps.take(k + 1).drop_last() =~= eps.take(k));
    assert(eps.take(k + 1).last() == eps[k]);
}

/// `context_entries` after folding the DCIs of `eps` into `acc`:
/// one more than the largest DCI seen, at least the accumulator.
pub open spec fn spec_entries_from(eps: Seq<EndpointDescriptor>, acc: int) -> int
    decreases eps.len(),
{
    if eps.len() == 0 {
        acc
    } else {
        let d = eps[0].calc_dci_spec() + 1;
        spec_entries_from(eps.drop_first(), if d > acc {
            d
        } else {
            acc
        })
    }
}

proof fn lemma_flag_zero(i: u32)
    by (bit_vector)
    ensures
        (0u32 & (1u32 << i)) == 0,
{
}

/// Builds the ConfigureEndpoint input context for the endpoints of
/// the selected configuration, and creates each endpoint's transfer
/// ring: every endpoint's DCI gets its add-context flag, its context
/// fields from the descriptor, and a fresh ring at the matching base
/// address; the slot context carries the live port number and speed
/// with `context_entries` one past the largest DCI. The returned TRB
/// is the ConfigureEndpoint command to push.
pub fn enable_endpoints(
    slot_id: usize,
    eps: &Vec<EndpointDescriptor>,
    ring_bases: &Vec<u64>,
    rings: &mut TransferRingSet,
    port_number: u8,
    speed: u8,
    ctx_size: crate::usb::device::ContextSize,
    input_ctx_addr: u64,
) -> (r: (crate::usb::device::InputContext, UnknownTRB))
    requires
        old(rings).wf(),
        slot_id <= u8::MAX,
        eps@.len() <= ring_bases@.len(),
        forall|k: int|
            0 <= k < ring_bases@.len() ==> (#[trigger] ring_bases@[k]) % 16 == 0 && ring_bases@[k]
                + 16 * old(rings).ring_size <= u64::MAX,
    ensures
        final(rings).wf(),
        final(rings).ring_size == old(rings).ring_size,
        ({
            let ctx = r.0.handler_spec();
            let n = eps@.len() as int;
            &&& r.0.wf()
            &&& r.0.get_size_spec() == ctx_size
            &&& r.0.address_spec() == input_ctx_addr
            &&& r.1 == crate::usb::trb::spec_configure_endpoint_trb(input_ctx_addr, slot_id as u8)
            &&& ctx.device.slot.route_string == 0
            &&& ctx.device.slot.root_hub_port_number == port_number
            &&& ctx.device.slot.interrupter_target == 0
            &&& ctx.device.slot.speed == speed
            &&& ctx.device.slot.context_entries == spec_entries_from(eps@, 1)
            &&& forall|d: int|
                0 <= d < 32 ==> crate::usb::device::add_flag_set(ctx.control_add_flags, d) == (d
                    == 0 || last_ep_index(eps@, d) >= 0)
            &&& forall|d: int|
                1 <= d < 32 ==> ctx.device.endpoints@[d] == (if last_ep_index(eps@, d) >= 0 {
                    spec_configured_ep(
                        eps@[last_ep_index(eps@, d)],
                        ring_bases@[last_ep_index(eps@, d)],
                    )
                } else {
                    crate::usb::device::spec_zero_endpoint_context()
                })
            &&& forall|d: usize|
                0 <= d < 32 && last_ep_index(eps@, d as int) >= 0 ==> final(rings).has_ring(
                    slot_id,
                    d,
                ) && ({
                    let m = final(rings).ring_at(slot_id, d);
                    m.trbs.len() == old(rings).ring_size && m.enq == 0 && m.deq == 0 && m.cycle
                        == true && m.base == ring_bases@[last_ep_index(eps@, d as int)]
                })
            &&& forall|s2: usize, e2: usize|
                !(s2 == slot_id && e2 < 32 && last_ep_index(eps@, e2 as int) >= 0) ==> final(rings).has_ring(
                    s2,
                    e2,
                ) == old(rings).has_ring(s2, e2) && (old(rings).has_ring(s2, e2) ==> final(rings).ring_at(
                    s2,
                    e2,
                ) == old(rings).ring_at(s2, e2))
        }),
{
    let mut input_ctx = crate::usb::device::InputContext::new(ctx_size, input_ctx_addr);
    let handler = input_ctx.handler_mut();
    proof {
        assert forall|d: int| 0 < d < 32 implies !crate::usb::device::add_flag_set(
            handler.control_add_flags,
            d,
        ) by {
            lemma_flag_zero(d as u32);
        }
    }
    handler.set_add_context_flag(0);

    handler.device.slot.route_string = 0;
    handler.device.slot.root_hub_port_number = port_number;
    handler.device.slot.interrupter_target = 0;
    handler.device.slot.speed = speed;

    let mut context_entries: usize = 1;
    let n = eps.len();
    let mut k: usize = 0;

    proof {
        assert(eps@.take(0) =~= Seq::<EndpointDescriptor>::empty());
        assert(eps@.skip(0) =~= eps@);
    }

    while k < n
        invariant
            rings.wf(),
            rings.ring_size == old(rings).ring_size,
            n == eps@.len(),
            k <= n,
            n <= ring_bases@.len(),
            slot_id <= u8::MAX,
            forall|j: int|
                0 <= j < ring_bases@.len() ==> (#[trigger] ring_bases@[j]) % 16 == 0
                    && ring_bases@[j] + 16 * rings.ring_size <= u64::MAX,
            handler.wf(),
            handler.device.slot.route_string == 0,
            handler.device.slot.root_hub_port_number == port_number,
            handler.device.slot.interrupter_target == 0,
            handler.device.slot.speed == speed,
            1 <= context_entries <= 32,
            spec_entries_from(eps@, 1) == spec_entries_from(eps@.skip(k as int), context_entries as int),
            forall|d: int|
                0 <= d < 32 ==> crate::usb::device::add_flag_set(handler.control_add_flags, d) == (
                d == 0 || last_ep_index(eps@.take(k as int), d) >= 0),
            forall|d: int|
                1 <= d < 32 ==> handler.device.endpoints@[d] == (if last_ep_index(
                    eps@.take(k as int),
                    d,
                ) >= 0 {
                    spec_configured_ep(
                        eps@[last_ep_index(eps@.take(k as int), d)],
                        ring_bases@[last_ep_index(eps@.take(k as int), d)],
                    )
                } else {
                    crate::usb::device::spec_zero_endpoint_context()
                }),
            forall|d: usize|
                0 <= d < 32 && last_ep_index(eps@.take(k as int), d as int) >= 0 ==> rings.has_ring(
                    slot_id,
                    d,
                ) && ({
                    let m = rings.ring_at(slot_id, d);
                    m.trbs.len() == rings.ring_size && m.enq == 0 && m.deq == 0 && m.cycle == true
                        && m.base == ring_bases@[last_ep_index(eps@.take(k as int), d as int)]
                }),
            forall|s2: usize, e2: usize|
                !(s2 == slot_id && e2 < 32 && last_ep_index(eps@.take(k as int), e2 as int) >= 0)
                    ==> rings.has_ring(s2, e2) == old(rings).has_ring(s2, e2) && (old(
                    rings,
                ).has_ring(s2, e2) ==> rings.ring_at(s2, e2) == old(rings).ring_at(s2, e2)),
        decreases n - k,
    {
        let ep = eps[k];
        let dci = ep.calc_dci();
        proof {
            lemma_last_ep_step(eps@, k as int, dci as int);
            assert forall|d: int| 0 <= d < 32 && d != dci implies last_ep_index(
                eps@.take(k as int + 1),
                d,
            ) == last_ep_index(eps@.take(k as int), d) by {
                lemma_last_ep_step(eps@, k as int, d);
            }
            assert(eps@.skip(k as int)[0] == eps@[k as int]);
            assert(eps@.skip(k as int).drop_first() =~= eps@.skip(k as int + 1));
        }

        handler.set_add_context_flag(dci);

        let ring_ptr = rings.init_ring_at(slot_id, dci, ring_bases[k]);

        let transfer_type = ep.bm_attributes & 3;
        let dir_in = ep.endpoint_addr >> 7 == 1;
        let endpoint_type = if transfer_type == 0 {
            crate::usb::device::EndpointType::Control
        } else if transfer_type == 1 {
            if dir_in {
                crate::usb::device::EndpointType::IsochIn
            } else {
                crate::usb::device::EndpointType::IsochOut
            }
        } else if transfer_type == 2 {
            if dir_in {
                crate::usb::device::EndpointType::BulkIn
            } else {
                crate::usb::device::EndpointType::BulkOut
            }
        } else {
            if dir_in {
                crate::usb::device::EndpointType::InterruptIn
            } else {
                crate::usb::device::EndpointType::InterruptOut
            }
        };
        let ep_context = crate::usb::device::EndpointContext {
            endpoint_type,
            max_packet_size: ep.max_packet_size,
            max_burst_size: 0,
            tr_dequeue_pointer: ring_ptr,
            dequeue_cycle_state: true,
            interval: ep.interval,
            max_primary_streams: 0,
            mult: 0,
            error_count: 3,
        };
        handler.device.endpoints.set(dci, ep_context);

        if dci + 1 > context_entries {
            context_entries = dci + 1;
        }
        k = k + 1;
    }

    proof {
        assert(eps@.take(n as int) =~= eps@);
        assert(eps@.skip(n as int) =~= Seq::<EndpointDescriptor>::empty());
    }
    handler.device.slot.context_entries = context_entries as u8;

    let addr = input_ctx.get_address();
    let trb = crate::usb::trb::configure_endpoint_trb(addr, slot_id as u8);
    (input_ctx, trb)
}

} // verus!
