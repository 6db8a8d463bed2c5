//! The UEFI memory map as the bootloader hands it over: a byte
//! buffer of descriptor records, each `descriptor_size` bytes apart,
//! read little-endian. A record with attribute 0 ends the map (the
//! firmware zero-fills the tail).

use vstd::prelude::*;

verus! {

/// The raw handoff from the bootloader: where the descriptor buffer
/// sits in memory and how it is laid out.
#[derive(Clone, Copy, Debug, PartialEq, Eq, Structural)]
pub struct MemoryMapRaw {
    /// Physical address of the descriptor buffer.
    pub buffer: u64,
    pub map_size: u64,
    pub map_key: u64,
    pub descriptor_size: u64,
}

#[derive(Clone, Copy, Debug, PartialEq, Eq, Structural)]
pub enum MemoryType {
    EfiReservedMemoryType,
    EfiLoaderCode,
    EfiLoaderData,
    EfiBootServicesCode,
    EfiBootServicesData,
    EfiRuntimeServicesCode,
    EfiRuntimeServicesData,
    EfiConventionalMemory,
    EfiUnusableMemory,
    EfiACPIReclaimMemory,
    EfiACPIMemoryNVS,
    EfiMemoryMappedIO,
    EfiMemoryMappedIOPortSpace,
    EfiPalCode,
    EfiPersistentMemory,
    EfiMaxMemoryType,
}

/// The UEFI numbering of the memory types; everything past the known
/// range reads as `EfiMaxMemoryType`.
pub open spec fn spec_memory_type_of(v: u32) -> MemoryType {
    if v == 0 {
        MemoryType::EfiReservedMemoryType
    } else if v == 1 {
        MemoryType::EfiLoaderCode
    } else if v == 2 {
        MemoryType::EfiLoaderData
    } else if v == 3 {
        MemoryType::EfiBootServicesCode
    } else if v == 4 {
        MemoryType::EfiBootServicesData
    } else if v == 5 {
        MemoryType::EfiRuntimeServicesCode
    } else if v == 6 {
        MemoryType::EfiRuntimeServicesData
    } else if v == 7 {
        MemoryType::EfiConventionalMemory
    } else if v == 8 {
        MemoryType::EfiUnusableMemory
    } else if v == 9 {
        MemoryType::EfiACPIReclaimMemory
    } else if v == 10 {
        MemoryType::EfiACPIMemoryNVS
    } else if v == 11 {
        MemoryType::EfiMemoryMappedIO
    } else if v == 12 {
        MemoryType::EfiMemoryMappedIOPortSpace
    } else if v == 13 {
        MemoryType::EfiPalCode
    } else if v == 14 {
        MemoryType::EfiPersistentMemory
    } else {
        MemoryType::EfiMaxMemoryType
    }
}

pub fn memory_type_of(v: u32) -> (r: MemoryType)
    ensures
        r == spec_memory_type_of(v),
{
    if v == 0 {
        MemoryType::EfiReservedMemoryType
    } else if v == 1 {
        MemoryType::EfiLoaderCode
    } else if v == 2 {
        MemoryType::EfiLoaderData
    } else if v == 3 {
        MemoryType::EfiBootServicesCode
    } else if v == 4 {
        MemoryType::EfiBootServicesData
    } else if v == 5 {
        MemoryType::EfiRuntimeServicesCode
    } else if v == 6 {
        MemoryType::EfiRuntimeServicesData
    } else if v == 7 {
        MemoryType::EfiConventionalMemory
    } else if v == 8 {
        MemoryType::EfiUnusableMemory
    } else if v == 9 {
        MemoryType::EfiACPIReclaimMemory
    } else if v == 10 {
        MemoryType::EfiACPIMemoryNVS
    } else if v == 11 {
        MemoryType::EfiMemoryMappedIO
    } else if v == 12 {
        MemoryType::EfiMemoryMappedIOPortSpace
    } else if v == 13 {
        MemoryType::EfiPalCode
    } else if v == 14 {
        MemoryType::EfiPersistentMemory
    } else {
        MemoryType::EfiMaxMemoryType
    }
}

impl MemoryType {
    /// The UEFI name of the memory type.
    pub fn to_str(&self) -> (r: &'static str)
        ensures
            self is EfiReservedMemoryType ==> r@ == "EfiReservedMemoryType"@,
            self is EfiLoaderCode ==> r@ == "EfiLoaderCode"@,
            self is EfiLoaderData ==> r@ == "EfiLoaderData"@,
            self is EfiBootServicesCode ==> r@ == "EfiBootServicesCode"@,
            self is EfiBootServicesData ==> r@ == "EfiBootServicesData"@,
            self is EfiRuntimeServicesCode ==> r@ == "EfiRuntimeServicesCode"@,
            self is EfiRuntimeServicesData ==> r@ == "EfiRuntimeServicesData"@,
            self is EfiConventionalMemory ==> r@ == "EfiConventionalMemory"@,
            self is EfiUnusableMemory ==> r@ == "EfiUnusableMemory"@,
            self is EfiACPIReclaimMemory ==> r@ == "EfiACPIReclaimMemory"@,
            self is EfiACPIMemoryNVS ==> r@ == "EfiACPIMemoryNVS"@,
            self is EfiMemoryMappedIO ==> r@ == "EfiMemoryMappedIO"@,
            self is EfiMemoryMappedIOPortSpace ==> r@ == "EfiMemoryMappedIOPortSpace"@,
            self is EfiPalCode ==> r@ == "EfiPalCode"@,
            self is EfiPersistentMemory ==> r@ == "EfiPersistentMemory"@,
            self is EfiMaxMemoryType ==> r@ == "EfiMaxMemoryType"@,
    {
        match *self {
            MemoryType::EfiReservedMemoryType => "EfiReservedMemoryType",
            MemoryType::EfiLoaderCode => "EfiLoaderCode",
            MemoryType::EfiLoaderData => "EfiLoaderData",
            MemoryType::EfiBootServicesCode => "EfiBootServicesCode",
            MemoryType::EfiBootServicesData => "EfiBootServicesData",
            MemoryType::EfiRuntimeServicesCode => "EfiRuntimeServicesCode",
            MemoryType::EfiRuntimeServicesData => "EfiRuntimeServicesData",
            MemoryType::EfiConventionalMemory => "EfiConventionalMemory",
            MemoryType::EfiUnusableMemory => "EfiUnusableMemory",
            MemoryType::EfiACPIReclaimMemory => "EfiACPIReclaimMemory",
            MemoryType::EfiACPIMemoryNVS => "EfiACPIMemoryNVS",
            MemoryType::EfiMemoryMappedIO => "EfiMemoryMappedIO",
            MemoryType::EfiMemoryMappedIOPortSpace => "EfiMemoryMappedIOPortSpace",
            MemoryType::EfiPalCode => "EfiPalCode",
            MemoryType::EfiPersistentMemory => "EfiPersistentMemory",
            MemoryType::EfiMaxMemoryType => "EfiMaxMemoryType",
        }
    }
}

/// One memory-map record.
#[derive(Clone, Copy, Debug, PartialEq, Eq, Structural)]
pub struct MemoryDescriptor {
    pub type_: MemoryType,
    pub physical_start: u64,
    pub virtual_start: u64,
    pub num_pages: u64,
    pub attribute: u64,
}

impl MemoryDescriptor {
    /// Free memory after boot services exit: conventional memory and
    /// the boot-services code and data regions.
    pub open spec fn is_available_spec(self) -> bool {
        self.type_ == MemoryType::EfiBootServicesCode || self.type_
            == MemoryType::EfiBootServicesData || self.type_ == MemoryType::EfiConventionalMemory
    }

    pub fn is_available(&self) -> (r: bool)
        ensures
            r == self.is_available_spec(),
    {
        match self.type_ {
            MemoryType::EfiBootServicesCode | MemoryType::EfiBootServicesData
                | MemoryType::EfiConventionalMemory => true,
            _ => false,
        }
    }
}

/// The memory map with its descriptor bytes in hand.
pub struct MemoryMap {
    pub buffer: Vec<u8>,
    pub map_key: u64,
    pub descriptor_size: usize,
}

/// The little-endian 32-bit word at `off`.
pub open spec fn spec_le_u32_at(b: Seq<u8>, off: int) -> u32 {
    (b[off] as u32) | ((b[off + 1] as u32) << 8) | ((b[off + 2] as u32) << 16) | ((b[off
        + 3] as u32) << 24)
}

/// The little-endian 64-bit word at `off`.
pub open spec fn spec_le_u64_at(b: Seq<u8>, off: int) -> u64 {
    (b[off] as u64) | ((b[off + 1] as u64) << 8) | ((b[off + 2] as u64) << 16) | ((b[off
        + 3] as u64) << 24) | ((b[off + 4] as u64) << 32) | ((b[off + 5] as u64) << 40) | ((b[off
        + 6] as u64) << 48) | ((b[off + 7] as u64) << 56)
}

/// The descriptor record at byte offset `off`: type, physical start,
/// virtual start, page count and attribute, read little-endian.
pub open spec fn spec_descriptor_at(b: Seq<u8>, off: int) -> MemoryDescriptor {
    MemoryDescriptor {
        type_: spec_memory_type_of(spec_le_u32_at(b, off)),
        physical_start: spec_le_u64_at(b, off + 8),
        virtual_start: spec_le_u64_at(b, off + 16),
        num_pages: spec_le_u64_at(b, off + 24),
        attribute: spec_le_u64_at(b, off + 32),
    }
}

fn le_u32_at(b: &Vec<u8>, off: usize) -> (r: u32)
    requires
        off + 4 <= b@.len(),
    ensures
        r == spec_le_u32_at(b@, off as int),
{
    let n = b.len();
    (b[off] as u32) | ((b[off + 1] as u32) << 8) | ((b[off + 2] as u32) << 16) | ((b[off
        + 3] as u32) << 24)
}

fn le_u64_at(b: &Vec<u8>, off: usize) -> (r: u64)
    requires
        off + 8 <= b@.len(),
    ensures
        r == spec_le_u64_at(b@, off as int),
{
    let n = b.len();
    (b[off] as u64) | ((b[off + 1] as u64) << 8) | ((b[off + 2] as u64) << 16) | ((b[off
        + 3] as u64) << 24) | ((b[off + 4] as u64) << 32) | ((b[off + 5] as u64) << 40) | ((b[off
        + 6] as u64) << 48) | ((b[off + 7] as u64) << 56)
}

impl MemoryMap {
    pub open spec fn wf(&self) -> bool {
        self.descriptor_size >= 40
    }

    /// An iterator over the records, from the front of the buffer.
    pub fn entries(&self) -> (r: MemoryMapIter)
        ensures
            r.seek == 0,
    {
        MemoryMapIter { seek: 0 }
    }
}

/// Walks the records of a memory map. The map itself is passed to
/// each step, so the iterator is nothing but the byte offset.
#[derive(Clone, Copy, Debug, PartialEq, Eq, Structural)]
pub struct MemoryMapIter {
    pub seek: usize,
}

impl MemoryMapIter {
    /// The record under the cursor, unless the buffer has run out or
    /// a zero-attribute record ends the map early.
    pub fn next(&mut self, memmap: &MemoryMap) -> (r: Option<MemoryDescriptor>)
        requires
            memmap.wf(),
        ensures
            ({
                let off = old(self).seek as int;
                if off + memmap.descriptor_size > memmap.buffer@.len() {
                    r is None && final(self).seek == old(self).seek
                } else {
                    let d = spec_descriptor_at(memmap.buffer@, off);
                    if d.attribute == 0 {
                        r is None && final(self).seek == old(self).seek
                    } else {
                        r == Some(d) && final(self).seek == old(self).seek
                            + memmap.descriptor_size
                    }
                }
            }),
    {
        if self.seek > memmap.buffer.len() || memmap.descriptor_size > memmap.buffer.len()
            - self.seek {
            return None;
        }
        let off = self.seek;
        let desc = MemoryDescriptor {
            type_: memory_type_of(le_u32_at(&memmap.buffer, off)),
            physical_start: le_u64_at(&memmap.buffer, off + 8),
            virtual_start: le_u64_at(&memmap.buffer, off + 16),
            num_pages: le_u64_at(&memmap.buffer, off + 24),
            attribute: le_u64_at(&memmap.buffer, off + 32),
        };
        if desc.attribute == 0 {
            return None;
        }
        self.seek = self.seek + memmap.descriptor_size;
        Some(desc)
    }
}

} // verus!
