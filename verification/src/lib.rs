//! Core of a small x86_64 UEFI kernel: the xHCI ring protocol and its
//! cooperative runtime, the bitmap frame allocator and slab object
//! allocator, the software-timer subsystem, and the plain-data models
//! of the structures the hardware shares with the driver.
//!
//! Everything here is pure logic on plain values; the thin layer that
//! touches MMIO registers, I/O ports and interrupt flags lives outside
//! the library and hands values in and out.

pub mod acpi;
pub mod bootinfo;
pub mod elf;
pub mod interrupt;
pub mod memory_manager;
pub mod memory_map;
pub mod message;
pub mod pci;
pub mod task;
pub mod timer;
pub mod usb;
