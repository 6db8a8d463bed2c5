//! Interrupt descriptors as the IDT holds them, with the handler
//! address split across the three offset fields. Loading the IDT
//! and toggling the interrupt flag happen outside the library.

use vstd::prelude::*;

verus! {

/// The interrupt vectors this kernel uses.
#[derive(Clone, Copy, Debug, PartialEq, Eq, Structural)]
pub enum IVIndex {
    XHCI,
    LapicTimer,
}

impl IVIndex {
    /// The vector number of the entry.
    pub fn vector(&self) -> (r: u8)
        ensures
            self is XHCI ==> r == 0x40,
            self is LapicTimer ==> r == 0x41,
    {
        match self {
            IVIndex::XHCI => 0x40,
            IVIndex::LapicTimer => 0x41,
        }
    }
}

/// System-segment and interrupt descriptor types.
#[derive(Clone, Copy, Debug, PartialEq, Eq, Structural)]
pub enum DescriptorType {
    Upper8Bytes,
    LDTOrReadWrite,
    TSSAvailable,
    TSSBusy,
    CallGate,
    InterruptGate,
    TrapGate,
    ExecuteRead,
}

/// The 4-bit type field value of a descriptor type.
pub open spec fn spec_descriptor_type_code(t: DescriptorType) -> u8 {
    match t {
        DescriptorType::Upper8Bytes => 0,
        DescriptorType::LDTOrReadWrite => 2,
        DescriptorType::TSSAvailable => 9,
        DescriptorType::TSSBusy => 11,
        DescriptorType::CallGate => 12,
        DescriptorType::InterruptGate => 14,
        DescriptorType::TrapGate => 15,
        DescriptorType::ExecuteRead => 10,
    }
}

impl DescriptorType {
    /// The 4-bit type field value.
    pub fn code(&self) -> (r: u8)
        ensures
            r == spec_descriptor_type_code(*self),
            r < 16,
    {
        match self {
            DescriptorType::Upper8Bytes => 0,
            DescriptorType::LDTOrReadWrite => 2,
            DescriptorType::TSSAvailable => 9,
            DescriptorType::TSSBusy => 11,
            DescriptorType::CallGate => 12,
            DescriptorType::InterruptGate => 14,
            DescriptorType::TrapGate => 15,
            DescriptorType::ExecuteRead => 10,
        }
    }
}

/// The attribute word of an IDT entry: interrupt-stack-table
/// index in bits 0..3, type in bits 8..12, privilege level in bits
/// 13..15, present in bit 15.
#[derive(Clone, Copy, Debug, PartialEq, Eq, Structural)]
pub struct InterruptDescriptorAttribute(pub u16);

impl InterruptDescriptorAttribute {
    /// A present entry of the given type at privilege `dpl`, with
    /// interrupt-stack-table index 0.
    pub fn new(dpl: u8, type_: DescriptorType) -> (r: Self)
        requires
            dpl < 4,
        ensures
            r.0 == (1u16 << 15) | (((dpl as u16) & 3) << 13) | (((spec_descriptor_type_code(
                type_,
            ) as u16) & 0xf) << 8),
    {
        let code = type_.code();
        InterruptDescriptorAttribute(
            (1u16 << 15) | (((dpl as u16) & 3) << 13) | (((code as u16) & 0xf) << 8),
        )
    }
}

/// One IDT entry: the handler address split low/middle/high around
/// the segment selector and attributes.
#[derive(Clone, Copy, Debug, PartialEq, Eq, Structural)]
pub struct InterruptDescriptor {
    pub offset_low: u16,
    pub segment_selector: u16,
    pub attr: InterruptDescriptorAttribute,
    pub offset_middle: u16,
    pub offset_high: u32,
    pub reserved: u32,
}

impl InterruptDescriptor {
    /// An entry for the handler at `offset`: the address's low 16
    /// bits, next 16 bits and top 32 bits in their fields.
    pub fn new(segment_selector: u16, attr: InterruptDescriptorAttribute, offset: u64) -> (r: Self)
        ensures
            r.segment_selector == segment_selector,
            r.attr == attr,
            r.reserved == 0,
            r.offset_low == (offset & 0xffff) as u16,
            r.offset_middle == ((offset >> 16) & 0xffff) as u16,
            r.offset_high == (offset >> 32) as u32,
    {
        proof {
            assert((offset & 0xffff) < 0x10000 && ((offset >> 16) & 0xffff) < 0x10000 && (offset
                >> 32) < 0x1_0000_0000) by (bit_vector);
        }
        InterruptDescriptor {
            segment_selector,
            attr,
            reserved: 0,
            offset_low: (offset & 0xffff) as u16,
            offset_middle: ((offset >> 16) & 0xffff) as u16,
            offset_high: (offset >> 32) as u32,
        }
    }
}

} // verus!
