//! The platform plumbing: memory-map parsing, ELF load ranges, ACPI
//! checksums and the PM-timer wait target, PCI addressing and MSI
//! words, interrupt descriptors, task contexts, and the BIOS/OS
//! handoff helpers.

use mikanami::acpi::{sum_bytes, wait_millis_target, DescriptionHeader, RSDP};
use mikanami::bootinfo::{FrameBufferConfig, PixelFormat};
use mikanami::elf::{Elf64_Phdr, Elf64_PhdrType, ElfFile, Elf64_Ehdr};
use mikanami::interrupt::{DescriptorType, IVIndex, InterruptDescriptor, InterruptDescriptorAttribute};
use mikanami::memory_map::{memory_type_of, MemoryMap, MemoryType};
use mikanami::pci::{
    make_address, msi_enable, msi_message_addr, msi_message_data, msi_message_data_offset,
    ClassCode, PCIController, PCIDevice, PCIError,
};
use mikanami::task::{TaskContext, TaskManager};
use mikanami::timer::{calibrated_lapic_freq, periodic_initial_count};
use mikanami::usb::xhci::{
    crcr_value, handoff_done, mmio_base_of_bar, os_owned_write, smi_disable_write,
    xhci_page_size, XhciCapability,
};

#[test]
fn memory_map_walk_parses_records() {
    // two descriptors of 48 bytes each, little-endian fields
    let mut buffer = vec![0u8; 96];
    buffer[0] = 7; // conventional
    buffer[8] = 0x10; buffer[10] = 0x10; // physical_start 0x10_0010... low bytes
    buffer[24] = 4; // num_pages
    buffer[32] = 8; // attribute
    buffer[48] = 0; // reserved type
    buffer[56] = 0x20;
    buffer[72] = 2;
    buffer[80] = 9;
    let map = MemoryMap { buffer, map_key: 1, descriptor_size: 48 };
    let mut it = map.entries();
    let first = it.next(&map).unwrap();
    assert_eq!(first.type_, MemoryType::EfiConventionalMemory);
    assert_eq!(first.physical_start, 0x10_0010);
    assert_eq!(first.num_pages, 4);
    assert!(first.is_available());
    let second = it.next(&map).unwrap();
    assert_eq!(second.type_, MemoryType::EfiReservedMemoryType);
    assert!(!second.is_available());
    assert_eq!(it.next(&map), None); // buffer exhausted
}

#[test]
fn memory_map_stops_at_zero_attribute() {
    let buffer = vec![0u8; 96]; // attribute 0 ends the map at once
    let map = MemoryMap { buffer, map_key: 0, descriptor_size: 48 };
    let mut it = map.entries();
    assert_eq!(it.next(&map), None);
}

#[test]
fn memory_type_codes() {
    assert_eq!(memory_type_of(7), MemoryType::EfiConventionalMemory);
    assert_eq!(memory_type_of(3), MemoryType::EfiBootServicesCode);
    assert_eq!(memory_type_of(99), MemoryType::EfiMaxMemoryType);
    assert_eq!(MemoryType::EfiConventionalMemory.to_str(), "EfiConventionalMemory");
}

fn phdr(ty: Elf64_PhdrType, vaddr: u64, memsz: u64) -> Elf64_Phdr {
    Elf64_Phdr {
        p_type: ty,
        p_flags: 0,
        p_offset: 0x40,
        p_vaddr: vaddr,
        p_paddr: vaddr,
        p_filesz: memsz / 2,
        p_memsz: memsz,
        p_align: 0x1000,
    }
}

#[test]
fn elf_load_range_covers_load_segments_only() {
    let ehdr = Elf64_Ehdr {
        e_type: 2, e_machine: 62, e_version: 1, e_entry: 0x101000,
        e_phoff: 64, e_shoff: 0, e_flags: 0, e_ehsize: 64,
        e_phentsize: 56, e_phnum: 3, e_shentsize: 64, e_shstrndx: 0,
    };
    let file = ElfFile {
        elf_header: ehdr,
        prog_headers: vec![
            phdr(Elf64_PhdrType::PtNote, 0x50, 0x10),
            phdr(Elf64_PhdrType::PtLoad, 0x101000, 0x2000),
            phdr(Elf64_PhdrType::PtLoad, 0x100000, 0x800),
        ],
    };
    assert_eq!(file.calc_load_address_range(), (0x100000, 0x103000));

    let seg = &file.prog_headers[1];
    assert_eq!(seg.inmem_range(), (0x101000, 0x103000));
    assert_eq!(seg.inmem_size(), 0x2000);
    assert_eq!(seg.infile_range(), (0x40, 0x40 + 0x1000));
    assert_eq!(seg.infile_size(), 0x1000);
}

#[test]
fn rsdp_checksums_and_signature() {
    let mut bytes = vec![0u8; 36];
    bytes[0..8].copy_from_slice(b"RSD PTR ");
    bytes[15] = 2; // revision
    bytes[24] = 0x40; // XSDT address low byte
    // fix both checksums
    let sum20: u8 = bytes[..20].iter().fold(0u8, |a, b| a.wrapping_add(*b));
    bytes[8] = sum20.wrapping_neg();
    let sum36: u8 = bytes[..36].iter().fold(0u8, |a, b| a.wrapping_add(*b));
    bytes[32] = sum36.wrapping_neg();

    let rsdp = RSDP { bytes };
    assert!(rsdp.is_valid());
    assert_eq!(rsdp.xsdt_address(), 0x40);

    let mut broken = RSDP { bytes: rsdp.bytes.clone() };
    broken.bytes[9] = broken.bytes[9].wrapping_add(1);
    assert!(!broken.is_valid());
}

#[test]
fn description_header_checksum() {
    let mut bytes = vec![0u8; 44];
    bytes[0..4].copy_from_slice(b"XSDT");
    bytes[4] = 44; // length
    let total: u8 = bytes.iter().fold(0u8, |a, b| a.wrapping_add(*b));
    bytes[9] = total.wrapping_neg(); // checksum byte
    let header = DescriptionHeader { bytes };
    assert!(header.is_valid(&b"XSDT".to_vec()));
    assert!(!header.is_valid(&b"FACP".to_vec()));
    assert_eq!(header.length(), 44);
    assert_eq!(header.xsdt_count(), 1);
    assert_eq!(sum_bytes(&header.bytes, 44), 0);
}

#[test]
fn pm_timer_wait_target() {
    // 100 ms at 3.579545 MHz is 357954 ticks
    assert_eq!(wait_millis_target(0, 100, true), 357954);
    // a narrow timer wraps at 24 bits
    assert_eq!(wait_millis_target(0x00ff_ff00, 100, false), (0x00ff_ff00 + 357954) & 0x00ff_ffff);
    // a wide timer wraps at 32 bits
    assert_eq!(wait_millis_target(0xffff_ff00, 100, true), 0xffff_ff00u32.wrapping_add(357954));
}

#[test]
fn pci_config_addressing() {
    assert_eq!(make_address(0, 0, 0, 0), 0x8000_0000);
    assert_eq!(make_address(1, 2, 3, 0x3d), 0x8001_133c);
    let dev = PCIDevice::new(1, 2, 3);
    assert_eq!(dev.get_index(), (1, 2, 3));
    assert_eq!(dev.config_address(0x3d), 0x8001_133c);
}

#[test]
fn pci_controller_bounds() {
    let mut pci = PCIController::new();
    for i in 0..32u8 {
        assert_eq!(pci.add_device(PCIDevice::new(0, i, 0)), Ok(()));
    }
    assert_eq!(pci.num_devices(), 32);
    assert_eq!(
        pci.add_device(PCIDevice::new(1, 0, 0)),
        Err(PCIError::DevicesAreFull)
    );
}

#[test]
fn class_code_matching() {
    let code = ClassCode::from_register(0x0c03_3000);
    assert_eq!((code.base, code.sub, code.interface), (0x0c, 0x03, 0x30));
    assert!(code.matches(0x0c, 0x03, 0x30));
    assert!(!code.matches(0x0c, 0x03, 0x20));
}

#[test]
fn msi_words() {
    assert_eq!(msi_message_addr(5), 0xfee0_5000);
    let data = msi_message_data(0x40);
    assert_eq!(data & 0xff, 0x40);
    assert_eq!(data & (1 << 15), 1 << 15); // level trigger
    assert_eq!(data & (1 << 14), 1 << 14); // level asserted
    assert_eq!(msi_enable(0x0086_d005) & (1 << 16), 1 << 16);
    // 64-bit capability puts Message Data one dword further down
    assert_eq!(msi_message_data_offset(0x50, 1 << 23), 0x5c);
    assert_eq!(msi_message_data_offset(0x50, 0), 0x58);
}

#[test]
fn interrupt_descriptor_splits_handler_address() {
    let attr = InterruptDescriptorAttribute::new(0, DescriptorType::InterruptGate);
    assert_eq!(attr.0, (1 << 15) | (14 << 8));
    let desc = InterruptDescriptor::new(0x08, attr, 0x1234_5678_9abc_def0);
    assert_eq!(desc.offset_low, 0xdef0);
    assert_eq!(desc.offset_middle, 0x9abc);
    assert_eq!(desc.offset_high, 0x1234_5678);
    assert_eq!(desc.segment_selector, 0x08);
    assert_eq!(desc.reserved, 0);
    assert_eq!(IVIndex::XHCI.vector(), 0x40);
    assert_eq!(IVIndex::LapicTimer.vector(), 0x41);
}

#[test]
fn task_contexts_rotate_round_robin() {
    let ctx = TaskContext::new();
    assert_eq!(ctx.rip, 0);
    assert_eq!(ctx.fxsave_area.len(), 128);

    let mut a = TaskContext::new();
    a.rip = 0xa;
    let mut b = TaskContext::new();
    b.rip = 0xb;
    let mut tasks = TaskManager { ctxs: vec![a, b] };
    tasks.rotate();
    assert_eq!(tasks.ctxs[0].rip, 0xb);
    assert_eq!(tasks.ctxs[1].rip, 0xa);
}

#[test]
fn task_initialisation_fills_context() {
    let mut ctx = TaskContext::new();
    ctx.init_for_task(0x101000, 1, 42, 0x20_0001, 0x08, 0x10, 0x5000);
    assert_eq!(ctx.rip, 0x101000);
    assert_eq!(ctx.rdi, 1);
    assert_eq!(ctx.rsi, 42);
    assert_eq!(ctx.rsp, 0x20_0000 - 8); // aligned down, one slot off
    assert_eq!(ctx.rflags, 0x202);
    assert_eq!((ctx.cs, ctx.ss, ctx.cr3), (0x08, 0x10, 0x5000));
    assert_eq!(ctx.fxsave_area[6], 0x1f80);
}

#[test]
fn bios_os_handoff_words() {
    let cap = XhciCapability { cap_id: 1, next_cap_ptr: 4, cap_specific: 1 };
    assert_eq!(cap.next_addr(0x8000_0000), Some(0x8000_0010));
    let end = XhciCapability { cap_id: 1, next_cap_ptr: 0, cap_specific: 1 };
    assert_eq!(end.next_addr(0x8000_0000), None);

    assert_eq!(os_owned_write(0x0001), 0x0101);
    assert!(!handoff_done(0x0101)); // BIOS still holds it
    assert!(handoff_done(0x0100));
    // all SMI enables drop, the status bits are written back set
    assert_eq!(smi_disable_write(0xffff_ffff), 0xffff_1fee | 0xe000_0000);
}

#[test]
fn lapic_calibration_arithmetic() {
    // 100 ms of elapsed counts scale to one second
    assert_eq!(calibrated_lapic_freq(1_000_000), 10_000_000);
    // the periodic count fires at the 100 Hz kernel tick
    assert_eq!(periodic_initial_count(10_000_000), 100_000);
}

#[test]
fn controller_init_words() {
    assert_eq!(mmio_base_of_bar(0x8000_0004), 0x8000_0000);
    assert_eq!(crcr_value(0x7000), 0x7001);
    assert_eq!(xhci_page_size(0), 4096); // bit 0: 4 KiB pages
    assert_eq!(xhci_page_size(3), 32768);
}

#[test]
fn framebuffer_config_size() {
    let fb = FrameBufferConfig {
        buf: 0x8000_0000,
        pixels_per_scanline: 800,
        horizontal_resolution: 800,
        vertical_resolution: 600,
        pixel_format: PixelFormat::PixelBGRResv8BitPerColor,
    };
    assert_eq!(fb.buffer_bytes(), 800 * 600 * 4);
}
