//! PCI configuration-space addressing and the device registry, with
//! the MSI capability words the kernel programs. Reading and writing
//! the two configuration I/O ports happens outside the library; the
//! values exchanged are computed and interpreted here.

use vstd::prelude::*;

verus! {

/// The CONFIG_ADDRESS word for a register of a function: enable bit
/// 31, bus, device, function, and the register offset with its low
/// two bits masked.
pub open spec fn spec_make_address(bus: u8, device: u8, function: u8, reg_addr: u8) -> u32 {
    (1u32 << 31) | ((bus as u32) << 16) | ((device as u32) << 11) | ((function as u32) << 8) | (
    (reg_addr as u32) & 0xfc)
}

pub fn make_address(bus: u8, device: u8, function: u8, reg_addr: u8) -> (r: u32)
    ensures
        r == spec_make_address(bus, device, function, reg_addr),
{
    (1u32 << 31) | ((bus as u32) << 16) | ((device as u32) << 11) | ((function as u32) << 8) | (
    (reg_addr as u32) & 0xfc)
}

/// One discovered PCI function.
#[derive(Clone, Copy, Debug, PartialEq, Eq, Structural)]
pub struct PCIDevice {
    pub bus: u8,
    pub device: u8,
    pub function: u8,
}

impl PCIDevice {
    pub fn new(bus: u8, device: u8, function: u8) -> (r: Self)
        ensures
            r == (PCIDevice { bus, device, function }),
    {
        PCIDevice { bus, device, function }
    }

    pub fn get_index(&self) -> (r: (u8, u8, u8))
        ensures
            r == (self.bus, self.device, self.function),
    {
        (self.bus, self.device, self.function)
    }

    /// The CONFIG_ADDRESS word of one of this function's registers.
    pub fn config_address(&self, reg_addr: u8) -> (r: u32)
        ensures
            r == spec_make_address(self.bus, self.device, self.function, reg_addr),
    {
        make_address(self.bus, self.device, self.function, reg_addr)
    }
}

/// A class code triple from configuration register 0x08: base, sub
/// and interface bytes.
#[derive(Clone, Copy, Debug, PartialEq, Eq, Structural)]
pub struct ClassCode {
    pub base: u8,
    pub sub: u8,
    pub interface: u8,
}

impl ClassCode {
    pub open spec fn matches_spec(self, base: u8, sub: u8, interface: u8) -> bool {
        self.base == base && self.sub == sub && self.interface == interface
    }

    pub fn matches(&self, base: u8, sub: u8, interface: u8) -> (r: bool)
        ensures
            r == self.matches_spec(base, sub, interface),
    {
        self.base == base && self.sub == sub && self.interface == interface
    }

    /// The class code carried by configuration register 0x08.
    pub fn from_register(reg: u32) -> (r: Self)
        ensures
            r.base == (reg >> 24) as u8,
            r.sub == ((reg >> 16) & 0xff) as u8,
            r.interface == ((reg >> 8) & 0xff) as u8,
    {
        proof {
            assert((reg >> 24) < 256 && ((reg >> 16) & 0xff) < 256 && ((reg >> 8) & 0xff) < 256)
                by (bit_vector);
        }
        ClassCode {
            base: (reg >> 24) as u8,
            sub: ((reg >> 16) & 0xff) as u8,
            interface: ((reg >> 8) & 0xff) as u8,
        }
    }
}

#[derive(Clone, Copy, Debug, PartialEq, Eq, Structural)]
pub enum PCIError {
    DevicesAreFull,
}

/// PCI capability identifiers this driver knows.
#[derive(Clone, Copy, Debug, PartialEq, Eq, Structural)]
pub enum PCICapabilityId {
    MSI,
}

impl PCICapabilityId {
    /// The capability id byte.
    pub fn code(&self) -> (r: u8)
        ensures
            r == 5u8,
    {
        5
    }
}

/// A capability-list header as read from configuration space.
#[derive(Clone, Copy, Debug, PartialEq, Eq, Structural)]
pub struct PCICapabilityHeader {
    pub cap_id: u8,
    pub next_cap_ptr: u8,
}

/// MSI delivery destination modes this driver programs.
#[derive(Clone, Copy, Debug, PartialEq, Eq, Structural)]
pub enum MSIDestinationMode {
    Fixed,
}

impl MSIDestinationMode {
    pub fn code(&self) -> (r: u8)
        ensures
            r == 0u8,
    {
        0
    }
}

/// The registry of discovered devices: at most 32, in scan order.
pub struct PCIController {
    pub devices: Vec<PCIDevice>,
}

impl PCIController {
    pub open spec fn wf(&self) -> bool {
        self.devices@.len() <= 32
    }

    pub fn new() -> (r: Self)
        ensures
            r.wf(),
            r.devices@ == Seq::<PCIDevice>::empty(),
    {
        PCIController { devices: Vec::new() }
    }

    pub fn num_devices(&self) -> (r: usize)
        ensures
            r == self.devices@.len(),
    {
        self.devices.len()
    }

    /// Records a discovered function; the registry refuses more
    /// than its 32 slots.
    pub fn add_device(&mut self, device: PCIDevice) -> (r: Result<(), PCIError>)
        requires
            old(self).wf(),
        ensures
            final(self).wf(),
            old(self).devices@.len() == 32 ==> r == Err::<(), PCIError>(PCIError::DevicesAreFull)
                && final(self).devices@ == old(self).devices@,
            old(self).devices@.len() < 32 ==> r == Ok::<(), PCIError>(()) && final(self).devices@
                == old(self).devices@.push(device),
    {
        if self.devices.len() == 32 {
            return Err(PCIError::DevicesAreFull);
        }
        self.devices.push(device);
        Ok(())
    }

    pub fn get_devices(&self) -> (r: &Vec<PCIDevice>)
        ensures
            r@ == self.devices@,
    {
        &self.devices
    }
}

/// The MSI Message Address register for fixed delivery to a local
/// APIC: 0xfee in the top twelve bits and the destination id at
/// bits 12..20, redirection hint clear.
pub open spec fn spec_msi_message_addr(apic_id: u8) -> u32 {
    (0xfeeu32 << 20) | ((apic_id as u32) << 12)
}

pub fn msi_message_addr(apic_id: u8) -> (r: u32)
    ensures
        r == spec_msi_message_addr(apic_id),
{
    (0xfeeu32 << 20) | ((apic_id as u32) << 12)
}

/// The MSI Message Data register: the vector in the low byte, fixed
/// delivery mode, level trigger with the level asserted.
pub open spec fn spec_msi_message_data(vector: u8) -> u32 {
    (vector as u32) | (1u32 << 14) | (1u32 << 15)
}

pub fn msi_message_data(vector: u8) -> (r: u32)
    ensures
        r == spec_msi_message_data(vector),
{
    (vector as u32) | (1u32 << 14) | (1u32 << 15)
}

/// The MSI capability header with its enable bit set, everything
/// else as read.
pub open spec fn spec_msi_enable(header: u32) -> u32 {
    header | (1u32 << 16)
}

pub fn msi_enable(header: u32) -> (r: u32)
    ensures
        r == spec_msi_enable(header),
{
    header | (1u32 << 16)
}

/// Where the Message Data register of an MSI capability sits: right
/// after the address registers, one more dword down when the
/// capability is 64-bit (header bit 23).
pub fn msi_message_data_offset(cap_addr: u8, header: u32) -> (r: u8)
    requires
        cap_addr <= 0xf0,
    ensures
        r == (if header & (1u32 << 23) != 0 {
            cap_addr + 12
        } else {
            cap_addr + 8
        }),
{
    if header & (1u32 << 23) != 0 {
        cap_addr + 12
    } else {
        cap_addr + 8
    }
}

} // verus!
