//! The ELF64 structures the bootloader reads to place the kernel
//! image, and the arithmetic over their program headers.

use vstd::prelude::*;

verus! {

#[derive(Clone, Copy, Debug, PartialEq, Eq, Structural)]
#[allow(non_camel_case_types)]
pub struct Elf64_Ehdr {
    pub e_type: u16,
    pub e_machine: u16,
    pub e_version: u32,
    pub e_entry: u64,
    pub e_phoff: u64,
    pub e_shoff: u64,
    pub e_flags: u32,
    pub e_ehsize: u16,
    pub e_phentsize: u16,
    pub e_phnum: u16,
    pub e_shentsize: u16,
    pub e_shstrndx: u16,
}

#[derive(Clone, Copy, Debug, PartialEq, Eq, Structural)]
#[allow(non_camel_case_types)]
pub enum Elf64_PhdrType {
    PtNull,
    PtLoad,
    PtDynamic,
    PtInterp,
    PtNote,
    PtShlib,
    PtPhdr,
    PtTls,
}

/// One program header: the file range at `p_offset` is placed at
/// `p_vaddr` in memory, zero-padded to `p_memsz`.
#[derive(Clone, Copy, Debug, PartialEq, Eq, Structural)]
#[allow(non_camel_case_types)]
pub struct Elf64_Phdr {
    pub p_type: Elf64_PhdrType,
    pub p_flags: u32,
    pub p_offset: u64,
    pub p_vaddr: u64,
    pub p_paddr: u64,
    pub p_filesz: u64,
    pub p_memsz: u64,
    pub p_align: u64,
}

/// A dynamic-section entry.
#[derive(Clone, Copy, Debug, PartialEq, Eq, Structural)]
#[allow(non_camel_case_types)]
pub struct Elf64_Dyn {
    pub d_tag: i64,
    pub d_un: u64,
}

impl Elf64_Phdr {
    /// The memory range the segment occupies.
    pub fn inmem_range(&self) -> (r: (u64, u64))
        requires
            self.p_vaddr + self.p_memsz <= u64::MAX,
        ensures
            r.0 == self.p_vaddr,
            r.1 == self.p_vaddr + self.p_memsz,
    {
        (self.p_vaddr, self.p_vaddr + self.p_memsz)
    }

    pub fn inmem_size(&self) -> (r: u64)
        ensures
            r == self.p_memsz,
    {
        self.p_memsz
    }

    /// The file range the segment is copied from.
    pub fn infile_range(&self) -> (r: (u64, u64))
        requires
            self.p_offset + self.p_filesz <= u64::MAX,
        ensures
            r.0 == self.p_offset,
            r.1 == self.p_offset + self.p_filesz,
    {
        (self.p_offset, self.p_offset + self.p_filesz)
    }

    pub fn infile_size(&self) -> (r: u64)
        ensures
            r == self.p_filesz,
    {
        self.p_filesz
    }
}

/// An ELF file as the loader sees it: its header and program
/// headers.
pub struct ElfFile {
    pub elf_header: Elf64_Ehdr,
    pub prog_headers: Vec<Elf64_Phdr>,
}

/// The smallest load address among LOAD segments up to `i`, folded
/// from `u64::MAX`.
pub open spec fn spec_load_first(phs: Seq<Elf64_Phdr>, i: int) -> int
    decreases i,
{
    if i <= 0 {
        u64::MAX as int
    } else {
        let prev = spec_load_first(phs, i - 1);
        if phs[i - 1].p_type == Elf64_PhdrType::PtLoad && phs[i - 1].p_vaddr < prev {
            phs[i - 1].p_vaddr as int
        } else {
            prev
        }
    }
}

/// The largest load end among LOAD segments up to `i`, folded from
/// zero.
pub open spec fn spec_load_last(phs: Seq<Elf64_Phdr>, i: int) -> int
    decreases i,
{
    if i <= 0 {
        0
    } else {
        let prev = spec_load_last(phs, i - 1);
        let end = phs[i - 1].p_vaddr + phs[i - 1].p_memsz;
        if phs[i - 1].p_type == Elf64_PhdrType::PtLoad && end > prev {
            end
        } else {
            prev
        }
    }
}

impl ElfFile {
    /// The address range the LOAD segments cover: the least start
    /// and the greatest end, over every program header of type LOAD.
    pub fn calc_load_address_range(&self) -> (r: (u64, u64))
        requires
            forall|i: int|
                0 <= i < self.prog_headers@.len() ==> (#[trigger] self.prog_headers@[i]).p_vaddr
                    + self.prog_headers@[i].p_memsz <= u64::MAX,
        ensures
            r.0 == spec_load_first(self.prog_headers@, self.prog_headers@.len() as int),
            r.1 == spec_load_last(self.prog_headers@, self.prog_headers@.len() as int),
    {
        let mut first: u64 = u64::MAX;
        let mut last: u64 = 0;
        let n = self.prog_headers.len();
        let mut i: usize = 0;
        while i < n
            invariant
                i <= n,
                n == self.prog_headers@.len(),
                forall|j: int|
                    0 <= j < n ==> (#[trigger] self.prog_headers@[j]).p_vaddr
                        + self.prog_headers@[j].p_memsz <= u64::MAX,
                first == spec_load_first(self.prog_headers@, i as int),
                last == spec_load_last(self.prog_headers@, i as int),
            decreases n - i,
        {
            let phdr = &self.prog_headers[i];
            let is_load = match phdr.p_type {
                Elf64_PhdrType::PtLoad => true,
                _ => false,
            };
            if is_load {
                if phdr.p_vaddr < first {
                    first = phdr.p_vaddr;
                }
                let end = phdr.p_vaddr + phdr.p_memsz;
                if end > last {
                    last = end;
                }
            }
            i = i + 1;
        }
        (first, last)
    }
}

} // verus!
