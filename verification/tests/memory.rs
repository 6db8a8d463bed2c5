//! The frame allocator against the boot memory map, and the slab
//! object allocator.

use mikanami::memory_manager::{
    BitMapMemoryManager, LazyInitVal, ObjectAllocator, PageHeader, SingleMutex,
};
use mikanami::memory_map::{MemoryDescriptor, MemoryType};

fn conventional(start: u64, pages: u64) -> MemoryDescriptor {
    MemoryDescriptor {
        type_: MemoryType::EfiConventionalMemory,
        physical_start: start,
        virtual_start: 0,
        num_pages: pages,
        attribute: 8,
    }
}

fn reserved(start: u64, pages: u64) -> MemoryDescriptor {
    MemoryDescriptor {
        type_: MemoryType::EfiReservedMemoryType,
        physical_start: start,
        virtual_start: 0,
        num_pages: pages,
        attribute: 8,
    }
}

#[test]
fn frame_allocator_boot_map_scenario() {
    // conventional 0x100000..0x200000, reserved 0x200000..0x201000,
    // conventional 0x201000..0x400000
    let descs = vec![
        conventional(0x100000, 0x100),
        reserved(0x200000, 1),
        conventional(0x201000, 0x1ff),
    ];
    let mut mm = BitMapMemoryManager::new(&descs);
    assert_eq!(mm.available_range, (1, 0x400));

    let one = mm.allocate(1);
    assert_eq!(one, Some(0x100));
    assert_eq!(mm.get_frame_start(0x100), 0x100000);

    // the first free 256-frame run now starts past the reserved page
    let many = mm.allocate(256);
    assert_eq!(many, Some(0x201));

    mm.free(0x100, 1);
    mm.free(0x201, 256);

    // the reserved page splits free memory into runs of 256 and
    // 511 frames, and the scan never places a run flush against
    // the end of its window; 510 contiguous frames is the largest
    // request that lands, past the reserved page
    assert_eq!(mm.allocate(512), None);
    assert_eq!(mm.allocate(510), Some(0x201));
}

#[test]
fn frame_allocator_round_trip_returns_same_start() {
    let descs = vec![conventional(0, 0x100)];
    let mut mm = BitMapMemoryManager::new(&descs);
    for n in [1usize, 5, 32] {
        let first = mm.allocate(n).unwrap();
        mm.free(first, n);
        let second = mm.allocate(n).unwrap();
        assert_eq!(first, second);
        mm.free(second, n);
    }
}

#[test]
fn frame_allocator_refuses_when_no_run_fits() {
    let descs = vec![conventional(0, 0x10)];
    let mut mm = BitMapMemoryManager::new(&descs);
    assert_eq!(mm.available_range, (1, 0x10));
    assert_eq!(mm.allocate(15), None); // the window keeps one frame shy
    assert_eq!(mm.allocate(14), Some(1));
}

#[test]
fn slab_page_carving() {
    let page = PageHeader::new_at(0x10000, 64);
    // 4096 / 64 - 1 objects: the first slot holds the page header
    assert_eq!(page.free_list.objs.len(), 63);
    assert_eq!(page.free_list.objs[0], 0x10040);
    assert_eq!(page.free_list.objs[62], 0x10fc0);
    assert_eq!(page.obj_sz, 64);
}

#[test]
fn slab_alignment_matrix() {
    // every allocation comes back aligned as asked, across the
    // sizes and alignments the kernel self-test enumerates
    for align in [1u64, 2, 4, 8, 16, 32, 64, 128] {
        let pages = vec![0x10000, 0x11000, 0x12000, 0x13000, 0x14000, 0x15000];
        let mut oa = ObjectAllocator::new(&pages);
        for size in [1usize, 2, 4, 8, 16, 32, 64, 128] {
            let ptr = oa.allocate(size, align).unwrap();
            assert_eq!(ptr % align, 0, "size {size} align {align}");
        }
    }
}

#[test]
fn slab_distinct_pointers_per_class() {
    // ten live objects of the 64-byte class are all distinct, and a
    // full free/re-allocate cycle never hands one out twice at once
    let pages = vec![0x10000, 0x11000, 0x12000, 0x13000, 0x14000, 0x15000];
    let mut oa = ObjectAllocator::new(&pages);
    let mut ptrs = Vec::new();
    for _ in 0..10 {
        let p = oa.allocate(40, 8).unwrap();
        assert!(!ptrs.contains(&p));
        ptrs.push(p);
    }
    for p in &ptrs {
        oa.dealloc(*p, 40);
    }
    let mut again = Vec::new();
    for _ in 0..10 {
        let p = oa.allocate(40, 8).unwrap();
        assert!(!again.contains(&p));
        again.push(p);
    }
}

#[test]
fn slab_class_selection_is_strictly_greater() {
    let pages = vec![0x10000, 0x11000, 0x12000, 0x13000, 0x14000, 0x15000];
    let mut oa = ObjectAllocator::new(&pages);
    // a 64-byte request takes the 128-byte class
    let p = oa.allocate(64, 1).unwrap();
    assert!((0x11000..0x12000).contains(&p));
    // past the largest class the allocator reports out of memory
    assert_eq!(oa.allocate(2048, 1), None);
}

#[test]
fn single_mutex_and_lazy_init() {
    let mut mutex = SingleMutex::new();
    assert!(mutex.try_lock());
    mutex.unlock();
    mutex.lock();
    mutex.unlock();

    let mut cell: LazyInitVal<u32> = LazyInitVal::new();
    assert!(!cell.init);
    cell.init(11);
    assert_eq!(*cell.get(), 11);
    *cell.get_mut() = 12;
    assert_eq!(*cell.get(), 12);
}
