//! Physical-memory management: the bitmap frame allocator over 4 KiB
//! frames, the slab object allocator of six size classes carved from
//! single frames, the single-process mutex and the lazily initialised
//! cell the kernel wraps them in.

use vstd::prelude::*;

use vstd::arithmetic::div_mod::lemma_fundamental_div_mod;

use crate::memory_map::MemoryDescriptor;

verus! {

pub const BYTES_PER_FRAME: usize = 4096;
pub const UEFI_PAGE_SIZE: usize = 4096;
/// The allocator manages at most 128 GiB of physical memory: this
/// many 4 KiB frames.
pub const FRAME_COUNT: usize = 32 * 1024 * 1024;

/// A mutex for a single-processor kernel: taking it twice is a
/// programming error, so a nested lock is simply ruled out.
pub struct SingleMutex {
    pub locked: bool,
}

impl SingleMutex {
    pub fn new() -> (r: Self)
        ensures
            !r.locked,
    {
        SingleMutex { locked: false }
    }

    pub fn lock(&mut self)
        requires
            !old(self).locked,
        ensures
            final(self).locked,
    {
        self.locked = true;
    }

    pub fn try_lock(&mut self) -> (r: bool)
        requires
            !old(self).locked,
        ensures
            final(self).locked,
            r,
    {
        self.lock();
        true
    }

    pub fn unlock(&mut self)
        ensures
            !final(self).locked,
    {
        self.locked = false;
    }
}

/// A value that is created empty and filled exactly once.
pub struct LazyInitVal<T> {
    pub init: bool,
    pub inner: Option<T>,
}

impl<T> LazyInitVal<T> {
    pub open spec fn wf(&self) -> bool {
        self.init <==> self.inner is Some
    }

    pub fn new() -> (r: Self)
        ensures
            r.wf(),
            !r.init,
    {
        LazyInitVal { inner: None, init: false }
    }

    pub fn init(&mut self, content: T)
        requires
            old(self).wf(),
            !old(self).init,
        ensures
            final(self).wf(),
            final(self).init,
            final(self).inner == Some(content),
    {
        self.inner = Some(content);
        self.init = true;
    }

    pub fn get(&self) -> (r: &T)
        requires
            self.wf(),
            self.init,
        ensures
            *r == self.inner.unwrap(),
    {
        match &self.inner {
            Some(v) => v,
            None => vstd::pervasive::unreached(),
        }
    }

    pub fn get_mut(&mut self) -> (r: &mut T)
        requires
            old(self).wf(),
            old(self).init,
        ensures
            *r == old(self).inner.unwrap(),
            final(self).init,
            final(self).inner == Some(*final(r)),
            final(self).wf(),
    {
        match &mut self.inner {
            Some(v) => v,
            None => vstd::pervasive::unreached(),
        }
    }
}

/// Whether frame `f` reads as allocated in the bitmap: bit `f % 8`
/// of byte `f / 8`, bit 0 of byte 0 being frame 0.
pub open spec fn bit_at(map: Seq<u8>, f: int) -> bool {
    (map[f / 8] >> ((f % 8) as u8)) & 1 == 1
}

/// Every frame of `[s, s + n)` reads free.
pub open spec fn run_free(map: Seq<u8>, s: int, n: int) -> bool {
    forall|i: int| 0 <= i < n ==> !#[trigger] bit_at(map, s + i)
}

/// `s` is where the first-fit scan of the window lands: the earliest
/// start inside `[range.0, range.1 - n)` whose `n` frames all read
/// free.
pub open spec fn is_first_fit(map: Seq<u8>, range: (usize, usize), n: int, s: int) -> bool {
    &&& range.0 <= s
    &&& s + n < range.1
    &&& run_free(map, s, n)
    &&& forall|t: int| range.0 <= t < s ==> !run_free(map, t, n)
}

proof fn lemma_u8_bit_set(m: u8, b: u8, i: u8)
    by (bit_vector)
    requires
        b < 8,
        i < 8,
    ensures
        ((m | (1u8 << b)) >> b) & 1 == 1,
        i != b ==> ((m | (1u8 << b)) >> i) & 1 == (m >> i) & 1,
{
}

proof fn lemma_u8_bit_clear(m: u8, b: u8, i: u8)
    by (bit_vector)
    requires
        b < 8,
        i < 8,
    ensures
        ((m & !(1u8 << b)) >> b) & 1 == 0,
        i != b ==> ((m & !(1u8 << b)) >> i) & 1 == (m >> i) & 1,
{
}

proof fn lemma_zero_bit(i: u8)
    by (bit_vector)
    ensures
        (0u8 >> i) & 1 == 0,
{
}

/// Distinct frames in the same bitmap byte sit at distinct bit
/// positions.
proof fn lemma_frame_byte_bit(f: int, g: int)
    requires
        0 <= f,
        0 <= g,
        f != g,
        f / 8 == g / 8,
    ensures
        f % 8 != g % 8,
{
    lemma_fundamental_div_mod(f, 8);
    lemma_fundamental_div_mod(g, 8);
}

/// The bitmap physical-frame allocator: one bit per 4 KiB frame, 1
/// meaning in use, scanning first-fit inside its available window.
pub struct BitMapMemoryManager {
    pub alloc_map: Vec<u8>,
    /// The first frame ever handed out and one past the last managed
    /// frame. Frame 0 is never handed out.
    pub available_range: (usize, usize),
}

impl BitMapMemoryManager {
    pub open spec fn wf(&self) -> bool {
        &&& self.available_range.1 <= 8 * self.alloc_map@.len()
        &&& 8 * self.alloc_map@.len() <= usize::MAX
    }

    /// How many frames the bitmap covers.
    pub open spec fn frames(&self) -> int {
        8 * (self.alloc_map@.len() as int)
    }

    pub fn set_bit(&mut self, frame: usize, allocated: bool)
        requires
            old(self).wf(),
            frame < 8 * old(self).alloc_map@.len(),
        ensures
            final(self).wf(),
            final(self).alloc_map@.len() == old(self).alloc_map@.len(),
            final(self).available_range == old(self).available_range,
            bit_at(final(self).alloc_map@, frame as int) == allocated,
            forall|g: int|
                0 <= g < old(self).frames() && g != frame ==> bit_at(final(self).alloc_map@, g)
                    == bit_at(old(self).alloc_map@, g),
    {
        let line_index = frame / 8;
        let bit_index = (frame % 8) as u8;
        let b = self.alloc_map[line_index];
        let updated: u8 = if allocated {
            b | (1u8 << bit_index)
        } else {
            b & !(1u8 << bit_index)
        };
        self.alloc_map.set(line_index, updated);
        proof {
            assert forall|g: int|
                0 <= g < old(self).frames() && g != frame implies bit_at(
                final(self).alloc_map@,
                g,
            ) == bit_at(old(self).alloc_map@, g) by {
                if g / 8 == frame as int / 8 {
                    lemma_frame_byte_bit(g, frame as int);
                    if allocated {
                        lemma_u8_bit_set(b, bit_index, (g % 8) as u8);
                    } else {
                        lemma_u8_bit_clear(b, bit_index, (g % 8) as u8);
                    }
                }
            }
            if allocated {
                lemma_u8_bit_set(b, bit_index, bit_index);
            } else {
                lemma_u8_bit_clear(b, bit_index, bit_index);
            }
        }
    }

    pub fn get_bit(&self, frame: usize) -> (r: bool)
        requires
            self.wf(),
            frame < 8 * self.alloc_map@.len(),
        ensures
            r == bit_at(self.alloc_map@, frame as int),
    {
        let line_index = frame / 8;
        let bit_index = (frame % 8) as u8;
        (self.alloc_map[line_index] >> bit_index) & 1 == 1
    }

    /// Marks `nframes` frames from `from` as in use.
    pub fn mark_allocated(&mut self, from: usize, nframes: usize)
        requires
            old(self).wf(),
            from + nframes <= 8 * old(self).alloc_map@.len(),
        ensures
            final(self).wf(),
            final(self).alloc_map@.len() == old(self).alloc_map@.len(),
            final(self).available_range == old(self).available_range,
            forall|g: int|
                from <= g < from + nframes ==> bit_at(final(self).alloc_map@, g),
            forall|g: int|
                0 <= g < old(self).frames() && !(from <= g < from + nframes) ==> bit_at(
                    final(self).alloc_map@,
                    g,
                ) == bit_at(old(self).alloc_map@, g),
    {
        let mut frame = from;
        while frame < from + nframes
            invariant
                self.wf(),
                from <= frame <= from + nframes,
                from + nframes <= 8 * self.alloc_map@.len(),
                self.alloc_map@.len() == old(self).alloc_map@.len(),
                self.available_range == old(self).available_range,
                forall|g: int| from <= g < frame ==> bit_at(self.alloc_map@, g),
                forall|g: int|
                    0 <= g < old(self).frames() && !(from <= g < frame) ==> bit_at(
                        self.alloc_map@,
                        g,
                    ) == bit_at(old(self).alloc_map@, g),
            decreases from + nframes - frame,
        {
            self.set_bit(frame, true);
            frame = frame + 1;
        }
    }

    /// First-fit allocation of `nframes` contiguous frames inside the
    /// available window: the earliest free run is marked in use and
    /// its start returned; `None` exactly when no such run exists,
    /// with nothing changed.
    pub fn allocate(&mut self, nframes: usize) -> (r: Option<usize>)
        requires
            old(self).wf(),
            nframes <= old(self).available_range.1,
        ensures
            final(self).wf(),
            final(self).alloc_map@.len() == old(self).alloc_map@.len(),
            final(self).available_range == old(self).available_range,
            match r {
                Some(s) => {
                    &&& is_first_fit(
                        old(self).alloc_map@,
                        old(self).available_range,
                        nframes as int,
                        s as int,
                    )
                    &&& forall|g: int|
                        s <= g < s + nframes ==> bit_at(final(self).alloc_map@, g)
                    &&& forall|g: int|
                        0 <= g < old(self).frames() && !(s <= g < s + nframes) ==> bit_at(
                            final(self).alloc_map@,
                            g,
                        ) == bit_at(old(self).alloc_map@, g)
                },
                None => {
                    &&& *final(self) == *old(self)
                    &&& forall|t: int|
                        old(self).available_range.0 <= t && t + nframes < old(self).available_range.1 ==> !run_free(old(self).alloc_map@, t, nframes as int)
                },
            },
    {
        let range = self.available_range;
        let mut start = range.0;

        while start < range.1 - nframes
            invariant
                self.wf(),
                *self == *old(self),
                range == self.available_range,
                nframes <= range.1,
                range.0 <= start,
                forall|t: int|
                    range.0 <= t < start && t + nframes < range.1 ==> !run_free(
                        self.alloc_map@,
                        t,
                        nframes as int,
                    ),
            decreases range.1 - start,
        {
            let mut nfree: usize = 0;
            while nfree < nframes && start + nfree < range.1 && !self.get_bit(start + nfree)
                invariant
                    self.wf(),
                    *self == *old(self),
                    range == self.available_range,
                    nframes <= range.1,
                    range.0 <= start,
                    start < range.1 - nframes,
                    nfree <= nframes,
                    start + nfree <= range.1,
                    forall|i: int| 0 <= i < nfree ==> !#[trigger] bit_at(self.alloc_map@, start + i),
                decreases nframes - nfree,
            {
                nfree = nfree + 1;
            }
            if nfree == nframes {
                self.mark_allocated(start, nframes);
                return Some(start);
            } else {
                proof {
                    // the run is blocked: either a set bit inside it,
                    // or it crosses the end of the window, in which
                    // case no candidate start is being skipped
                    assert forall|t: int|
                        start <= t <= start + nfree && t + nframes < range.1 implies !run_free(
                        self.alloc_map@,
                        t,
                        nframes as int,
                    ) by {
                        if start + nfree < range.1 {
                            let k = start + nfree - t;
                            assert(0 <= k < nframes);
                            assert(bit_at(self.alloc_map@, t + k));
                        } else {
                            assert(t + nframes < range.1 <= start + nfree);
                            assert(t <= start + nfree);
                            assert(nfree < nframes);
                            assert(false);
                        }
                    }
                }
                start = start + nfree + 1;
            }
        }
        None
    }

    /// Clears `nframes` frames from `start`; the caller passes a run
    /// it was previously handed by `allocate`.
    pub fn free(&mut self, start: usize, nframes: usize)
        requires
            old(self).wf(),
            start + nframes <= 8 * old(self).alloc_map@.len(),
        ensures
            final(self).wf(),
            final(self).alloc_map@.len() == old(self).alloc_map@.len(),
            final(self).available_range == old(self).available_range,
            forall|g: int|
                start <= g < start + nframes ==> !bit_at(final(self).alloc_map@, g),
            forall|g: int|
                0 <= g < old(self).frames() && !(start <= g < start + nframes) ==> bit_at(
                    final(self).alloc_map@,
                    g,
                ) == bit_at(old(self).alloc_map@, g),
    {
        let mut frame = start;
        while frame < start + nframes
            invariant
                self.wf(),
                start <= frame <= start + nframes,
                start + nframes <= 8 * self.alloc_map@.len(),
                self.alloc_map@.len() == old(self).alloc_map@.len(),
                self.available_range == old(self).available_range,
                forall|g: int| start <= g < frame ==> !bit_at(self.alloc_map@, g),
                forall|g: int|
                    0 <= g < old(self).frames() && !(start <= g < frame) ==> bit_at(
                        self.alloc_map@,
                        g,
                    ) == bit_at(old(self).alloc_map@, g),
            decreases start + nframes - frame,
        {
            self.set_bit(frame, false);
            frame = frame + 1;
        }
    }

    /// The physical address where a frame starts.
    pub fn get_frame_start(&self, frame: usize) -> (r: usize)
        requires
            frame <= usize::MAX / BYTES_PER_FRAME,
        ensures
            r == frame * BYTES_PER_FRAME,
    {
        proof {
            let limit = usize::MAX as int;
            assert(frame * 4096 <= (limit / 4096) * 4096 <= limit) by (nonlinear_arith)
                requires
                    frame <= limit / 4096,
                    limit >= 0,
            ;
        }
        frame * BYTES_PER_FRAME
    }
}

/// Floor division distributes no worse than the sum:
/// `a/4096 + b/4096 <= (a+b)/4096`.
proof fn lemma_floor_div_add(a: int, b: int)
    requires
        a >= 0,
        b >= 0,
    ensures
        a / 4096 + b / 4096 <= (a + b) / 4096,
{
    lemma_fundamental_div_mod(a, 4096);
    lemma_fundamental_div_mod(b, 4096);
    lemma_fundamental_div_mod(a + b, 4096);
    assert((a / 4096 + b / 4096) * 4096 <= a + b ==> a / 4096 + b / 4096 <= (a + b) / 4096)
        by (nonlinear_arith);
    assert((a / 4096 + b / 4096) * 4096 <= a + b) by (nonlinear_arith)
        requires
            a == 4096 * (a / 4096) + a % 4096,
            b == 4096 * (b / 4096) + b % 4096,
            a % 4096 >= 0,
            b % 4096 >= 0,
    ;
}

/// Which frames the boot walk marks allocated while the running end
/// of available memory is `ae`: for each record, the gap of frames
/// between `ae` and the record's start, and — when the record is not
/// available memory — the record's own span; an available record
/// moves `ae` past itself.
pub open spec fn marked_during(descs: Seq<MemoryDescriptor>, ae: int, f: int) -> bool
    decreases descs.len(),
{
    if descs.len() == 0 {
        false
    } else {
        let d = descs[0];
        let ps = d.physical_start as int;
        let span = d.num_pages as int * 4096;
        let gap = ae < ps && ae / 4096 <= f < ae / 4096 + (ps - ae) / 4096;
        let unavailable = !d.is_available_spec() && ps / 4096 <= f < ps / 4096 + d.num_pages;
        let ae2 = if d.is_available_spec() {
            ps + span
        } else {
            ae
        };
        gap || unavailable || marked_during(descs.drop_first(), ae2, f)
    }
}

/// Where available memory ends after walking the records.
pub open spec fn avail_end(descs: Seq<MemoryDescriptor>, ae: int) -> int
    decreases descs.len(),
{
    if descs.len() == 0 {
        ae
    } else {
        let d = descs[0];
        let ae2 = if d.is_available_spec() {
            d.physical_start as int + d.num_pages as int * 4096
        } else {
            ae
        };
        avail_end(descs.drop_first(), ae2)
    }
}

impl BitMapMemoryManager {
    /// Builds the allocator from the boot memory map: every byte not
    /// in an available region is marked allocated, and the available
    /// window runs from frame 1 to the end of available memory.
    pub fn new(descriptors: &Vec<MemoryDescriptor>) -> (r: Self)
        requires
            forall|i: int|
                0 <= i < descriptors@.len() ==> (#[trigger] descriptors@[i]).physical_start
                    + descriptors@[i].num_pages * 4096 <= FRAME_COUNT * 4096,
        ensures
            r.wf(),
            r.alloc_map@.len() == FRAME_COUNT / 8,
            r.available_range.0 == 1,
            r.available_range.1 == avail_end(descriptors@, 0) / 4096,
            forall|f: int|
                0 <= f < FRAME_COUNT ==> bit_at(r.alloc_map@, f) == marked_during(
                    descriptors@,
                    0,
                    f,
                ),
    {
        let mut alloc_map: Vec<u8> = Vec::new();
        let mut i: usize = 0;
        while i < FRAME_COUNT / 8
            invariant
                i <= FRAME_COUNT / 8,
                alloc_map@.len() == i,
                forall|j: int| 0 <= j < i ==> alloc_map@[j] == 0u8,
            decreases FRAME_COUNT / 8 - i,
        {
            alloc_map.push(0u8);
            i = i + 1;
        }
        let mut manager = BitMapMemoryManager { alloc_map, available_range: (1, 0) };
        proof {
            assert forall|f: int| 0 <= f < FRAME_COUNT implies !bit_at(manager.alloc_map@, f) by {
                lemma_zero_bit((f % 8) as u8);
            }
        }

        let ghost descs = descriptors@;
        proof {
            assert(descs.skip(0) =~= descs);
        }
        let mut available_end: u64 = 0;
        let mut idx: usize = 0;
        while idx < descriptors.len()
            invariant
                manager.wf(),
                manager.alloc_map@.len() == FRAME_COUNT / 8,
                descs == descriptors@,
                idx <= descs.len(),
                0 <= available_end <= FRAME_COUNT * 4096,
                forall|i2: int|
                    0 <= i2 < descs.len() ==> (#[trigger] descs[i2]).physical_start
                        + descs[i2].num_pages * 4096 <= FRAME_COUNT * 4096,
                avail_end(descs, 0) == avail_end(descs.skip(idx as int), available_end as int),
                forall|f: int|
                    0 <= f < FRAME_COUNT ==> #[trigger] marked_during(descs, 0, f) == (bit_at(
                        manager.alloc_map@,
                        f,
                    ) || marked_during(descs.skip(idx as int), available_end as int, f)),
            decreases descs.len() - idx,
        {
            let d = descriptors[idx];
            let ghost rest = descs.skip(idx as int);
            proof {
                assert(rest[0] == descs[idx as int]);
                assert(rest.drop_first() =~= descs.skip(idx as int + 1));
            }

            if available_end < d.physical_start {
                let from64 = available_end / 4096;
                let count64 = (d.physical_start - available_end) / 4096;
                proof {
                    lemma_floor_div_add(available_end as int, (d.physical_start
                        - available_end) as int);
                }
                manager.mark_allocated(from64 as usize, count64 as usize);
            }
            let physical_end = d.physical_start + d.num_pages * 4096;
            if d.is_available() {
                available_end = physical_end;
            } else {
                proof {
                    vstd::arithmetic::div_mod::lemma_hoist_over_denominator(
                        d.physical_start as int,
                        d.num_pages as int,
                        4096,
                    );
                }
                manager.mark_allocated(
                    (d.physical_start / 4096) as usize,
                    d.num_pages as usize,
                );
            }
            idx = idx + 1;
        }

        manager.available_range = (1, (available_end / 4096) as usize);
        proof {
            assert(descs.skip(descs.len() as int) =~= Seq::<MemoryDescriptor>::empty());
        }
        manager
    }
}

/// The first-fit start is unique: two starts that both satisfy the
/// first-fit characterisation are the same.
pub proof fn lemma_first_fit_unique(map: Seq<u8>, range: (usize, usize), n: int, s1: int, s2: int)
    requires
        is_first_fit(map, range, n, s1),
        is_first_fit(map, range, n, s2),
    ensures
        s1 == s2,
{
    if s1 < s2 {
        assert(!run_free(map, s1, n));
    }
    if s2 < s1 {
        assert(!run_free(map, s2, n));
    }
}

/// Size of the header at the front of every slab page.
pub const PAGE_HEADER_SIZE: usize = 32;

pub const N_BLOCK_SIZES: usize = 6;

/// The six object sizes the slab allocator serves.
pub open spec fn spec_block_sz(i: int) -> int {
    if i == 0 {
        64
    } else if i == 1 {
        128
    } else if i == 2 {
        256
    } else if i == 3 {
        512
    } else if i == 4 {
        1024
    } else {
        2048
    }
}

pub fn block_sz(i: usize) -> (r: usize)
    requires
        i < N_BLOCK_SIZES,
    ensures
        r == spec_block_sz(i as int),
{
    if i == 0 {
        64
    } else if i == 1 {
        128
    } else if i == 2 {
        256
    } else if i == 3 {
        512
    } else if i == 4 {
        1024
    } else {
        2048
    }
}

/// The class an allocation of `size` bytes falls into: the first
/// class whose object size strictly exceeds the request;
/// `N_BLOCK_SIZES` when even the largest class is too small.
pub open spec fn spec_class_index(size: int) -> int {
    if size < 64 {
        0
    } else if size < 128 {
        1
    } else if size < 256 {
        2
    } else if size < 512 {
        3
    } else if size < 1024 {
        4
    } else if size < 2048 {
        5
    } else {
        6
    }
}

/// Index of the first free object whose address satisfies `align`;
/// the list length when none does.
pub open spec fn first_aligned(s: Seq<u64>, align: u64) -> int
    decreases s.len(),
{
    if s.len() == 0 {
        0
    } else if s[0] % align == 0 {
        0
    } else {
        1 + first_aligned(s.drop_first(), align)
    }
}

pub proof fn lemma_first_aligned_char(s: Seq<u64>, align: u64)
    ensures
        0 <= first_aligned(s, align) <= s.len(),
        forall|j: int| 0 <= j < first_aligned(s, align) ==> s[j] % align != 0,
        first_aligned(s, align) < s.len() ==> s[first_aligned(s, align)] % align == 0,
    decreases s.len(),
{
    if s.len() > 0 && s[0] % align != 0 {
        let rest = s.drop_first();
        lemma_first_aligned_char(rest, align);
        assert forall|j: int| 0 <= j < first_aligned(s, align) implies s[j] % align != 0 by {
            if j > 0 {
                assert(rest[j - 1] == s[j]);
            }
        }
    }
}

/// The intrusive free list of one slab page, as the object addresses
/// it links, front first.
pub struct FreeList {
    pub objs: Vec<u64>,
}

impl FreeList {
    /// Returns a freed object to the front of the list.
    pub fn push_front(&mut self, obj: u64)
        ensures
            final(self).objs@ == old(self).objs@.insert(0, obj),
    {
        self.objs.insert(0, obj);
    }

    /// Takes the object at the front, if any.
    pub fn pop_front(&mut self) -> (r: Option<u64>)
        ensures
            old(self).objs@.len() == 0 ==> r is None && final(self).objs@ == old(self).objs@,
            old(self).objs@.len() > 0 ==> r == Some(old(self).objs@[0]) && final(self).objs@
                == old(self).objs@.drop_first(),
    {
        if self.objs.len() == 0 {
            return None;
        }
        let v = self.objs.remove(0);
        proof {
            assert(self.objs@ =~= old(self).objs@.drop_first());
        }
        Some(v)
    }

    /// Walks the list and detaches the first object whose address
    /// satisfies the requested alignment; the rest keep their order.
    pub fn pop_filter(&mut self, align: u64) -> (r: Option<u64>)
        requires
            align >= 1,
        ensures
            ({
                let s = old(self).objs@;
                let fi = first_aligned(s, align);
                if fi < s.len() {
                    r == Some(s[fi]) && s[fi] % align == 0 && final(self).objs@ == s.remove(fi)
                } else {
                    r is None && final(self).objs@ == s
                }
            }),
    {
        let ghost s = self.objs@;
        let mut i: usize = 0;
        let n = self.objs.len();
        while i < n
            invariant
                align >= 1,
                i <= n,
                n == self.objs@.len(),
                self.objs@ == s,
                s == old(self).objs@,
                forall|j: int| 0 <= j < i ==> s[j] % align != 0,
            decreases n - i,
        {
            if self.objs[i] % align == 0 {
                proof {
                    lemma_first_aligned_char(s, align);
                    let fi = first_aligned(s, align);
                    if (i as int) < fi {
                        assert(s[i as int] % align != 0);
                        assert(false);
                    }
                    if fi < i as int {
                        assert(s[fi] % align == 0);
                        assert(false);
                    }
                }
                proof {
                    s.remove_ensures(i as int);
                }
                let v = self.objs.remove(i);
                return Some(v);
            }
            i = i + 1;
        }
        proof {
            lemma_first_aligned_char(s, align);
            let fi = first_aligned(s, align);
            if fi < s.len() {
                assert(s[fi] % align == 0);
                assert(false);
            }
        }
        None
    }
}

/// Every free object sits on an `obj_sz` boundary and appears once.
pub open spec fn wf_free_list(objs: Seq<u64>, obj_sz: int) -> bool {
    &&& forall|k: int| 0 <= k < objs.len() ==> (#[trigger] objs[k]) % (obj_sz as u64) == 0
    &&& forall|k: int, l: int| 0 <= k < l < objs.len() ==> objs[k] != objs[l]
}

/// One slab page: a 4 KiB frame carved into equal objects of one
/// size class, with its free list.
pub struct PageHeader {
    pub free_list: FreeList,
    pub n_objs: usize,
    pub obj_sz: usize,
}

impl PageHeader {
    pub open spec fn wf(&self) -> bool {
        wf_free_list(self.free_list.objs@, self.obj_sz as int)
    }

    /// Carves the page at `page_head` into objects of `obj_sz`
    /// bytes: the space after the header, rounded up to an object
    /// boundary, becomes the free list in ascending address order.
    pub fn new_at(page_head: u64, obj_sz: usize) -> (r: Self)
        requires
            page_head % 4096 == 0,
            page_head >= 4096,
            page_head + 4096 <= u64::MAX,
            exists|i: int| 0 <= i < N_BLOCK_SIZES && spec_block_sz(i) == obj_sz,
        ensures
            r.wf(),
            r.obj_sz == obj_sz,
            r.n_objs == 0,
            r.free_list.objs@.len() == 4096int / (obj_sz as int) - 1,
            forall|k: int|
                0 <= k < r.free_list.objs@.len() ==> r.free_list.objs@[k] == page_head + obj_sz * (
                k + 1),
    {
        proof {
            let i = choose|i: int| 0 <= i < N_BLOCK_SIZES && spec_block_sz(i) == obj_sz;
            assert(64 <= obj_sz <= 2048);
            assert(4096int % (obj_sz as int) == 0);
            assert(page_head % (obj_sz as u64) == 0) by (nonlinear_arith)
                requires
                    page_head % 4096 == 0,
                    4096u64 % (obj_sz as u64) == 0,
                    64 <= obj_sz <= 2048,
            ;
        }
        let objs_start = (PAGE_HEADER_SIZE + obj_sz - 1) / obj_sz * obj_sz;
        proof {
            let szi = obj_sz as int;
            assert((32 + szi - 1) / szi == 1 && 1 * szi == szi) by (nonlinear_arith)
                requires
                    64 <= szi <= 2048,
            ;
        }

        let count = 4096 / obj_sz - 1;
        let mut objs: Vec<u64> = Vec::new();
        let mut k: usize = 0;
        while k < count
            invariant
                64 <= obj_sz <= 2048,
                count == 4096int / (obj_sz as int) - 1,
                page_head + 4096 <= u64::MAX,
                k <= count,
                objs@.len() == k,
                forall|j: int| 0 <= j < k ==> objs@[j] == page_head + obj_sz * (j + 1),
            decreases count - k,
        {
            proof {
                assert((k + 2) * (obj_sz as int) <= 4096 && (k + 1) * (obj_sz as int) <= 4096)
                    by (nonlinear_arith)
                    requires
                        64 <= obj_sz <= 2048,
                        0 <= k < 4096int / (obj_sz as int) - 1,
                ;
            }
            objs.push(page_head + ((k + 1) * obj_sz) as u64);
            proof {
                assert((k + 1) * (obj_sz as int) == (obj_sz as int) * (k + 1)) by (nonlinear_arith);
                assert(objs@[k as int] == page_head + obj_sz * (k + 1));
            }
            k = k + 1;
        }

        let r = PageHeader { free_list: FreeList { objs }, n_objs: 0, obj_sz };
        proof {
            assert forall|k2: int|
                0 <= k2 < r.free_list.objs@.len() implies (#[trigger] r.free_list.objs@[k2]) % (
            r.obj_sz as u64) == 0 by {
                assert(r.free_list.objs@[k2] == page_head + obj_sz * (k2 + 1));
                let ph = page_head as int;
                let szi = obj_sz as int;
                vstd::arithmetic::div_mod::lemma_mod_multiples_vanish(k2 + 1, ph, szi);
                assert(szi * (k2 + 1) + ph == ph + szi * (k2 + 1));
            }
            assert forall|k2: int, l: int|
                0 <= k2 < l < r.free_list.objs@.len() implies r.free_list.objs@[k2]
                != r.free_list.objs@[l] by {
                assert((obj_sz as int) * (k2 + 1) < (obj_sz as int) * (l + 1))
                    by (nonlinear_arith)
                    requires
                        64 <= obj_sz,
                        k2 < l,
                ;
            }
        }
        r
    }
}

/// The slab object allocator: one page per size class; requests pick
/// the first class whose object size exceeds them, and the page's
/// free list serves the first suitably aligned object.
pub struct ObjectAllocator {
    pub pages: Vec<PageHeader>,
}

impl ObjectAllocator {
    pub open spec fn wf(&self) -> bool {
        &&& self.pages@.len() == N_BLOCK_SIZES
        &&& forall|i: int|
            0 <= i < N_BLOCK_SIZES ==> (#[trigger] self.pages@[i]).obj_sz == spec_block_sz(i)
        &&& forall|i: int| 0 <= i < N_BLOCK_SIZES ==> (#[trigger] self.pages@[i]).wf()
    }

    /// Sets up one page per size class, each carved from its own
    /// 4 KiB frame.
    pub fn new(page_addrs: &Vec<u64>) -> (r: Self)
        requires
            page_addrs@.len() == N_BLOCK_SIZES,
            forall|i: int|
                0 <= i < N_BLOCK_SIZES ==> (#[trigger] page_addrs@[i]) % 4096 == 0 && page_addrs@[i]
                    >= 4096 && page_addrs@[i] + 4096 <= u64::MAX,
        ensures
            r.wf(),
            forall|i: int|
                0 <= i < N_BLOCK_SIZES ==> (#[trigger] r.pages@[i]).free_list.objs@.len()
                    == 4096int / spec_block_sz(i) - 1,
            forall|i: int, k: int|
                0 <= i < N_BLOCK_SIZES && 0 <= k < r.pages@[i].free_list.objs@.len()
                    ==> #[trigger] r.pages@[i].free_list.objs@[k] == page_addrs@[i] + spec_block_sz(
                    i,
                ) * (k + 1),
    {
        let mut pages: Vec<PageHeader> = Vec::new();
        let mut i: usize = 0;
        while i < N_BLOCK_SIZES
            invariant
                i <= N_BLOCK_SIZES,
                pages@.len() == i,
                page_addrs@.len() == N_BLOCK_SIZES,
                forall|j: int|
                    0 <= j < N_BLOCK_SIZES ==> (#[trigger] page_addrs@[j]) % 4096 == 0
                        && page_addrs@[j] >= 4096 && page_addrs@[j] + 4096 <= u64::MAX,
                forall|j: int| 0 <= j < i ==> (#[trigger] pages@[j]).obj_sz == spec_block_sz(j),
                forall|j: int| 0 <= j < i ==> (#[trigger] pages@[j]).wf(),
                forall|j: int|
                    0 <= j < i ==> (#[trigger] pages@[j]).free_list.objs@.len()
                        == 4096int / spec_block_sz(j) - 1,
                forall|j: int, k: int|
                    0 <= j < i && 0 <= k < pages@[j].free_list.objs@.len()
                        ==> #[trigger] pages@[j].free_list.objs@[k] == page_addrs@[j]
                        + spec_block_sz(j) * (k + 1),
            decreases N_BLOCK_SIZES - i,
        {
            let sz = block_sz(i);
            let page = PageHeader::new_at(page_addrs[i], sz);
            pages.push(page);
            i = i + 1;
        }
        ObjectAllocator { pages }
    }

    /// Serves `size` bytes at alignment `align`: the first class
    /// whose object size exceeds `size` hands out its first free
    /// object on an `align` boundary. `None` when the request is too
    /// large for every class or the class has no suitably aligned
    /// object left — the callers treat that as out of memory.
    pub fn allocate(&mut self, size: usize, align: u64) -> (r: Option<u64>)
        requires
            old(self).wf(),
            align >= 1,
        ensures
            final(self).wf(),
            ({
                let c = spec_class_index(size as int);
                if c == N_BLOCK_SIZES {
                    r is None && final(self).pages@ == old(self).pages@
                } else {
                    let s = old(self).pages@[c].free_list.objs@;
                    let fi = first_aligned(s, align);
                    &&& forall|j: int|
                        0 <= j < N_BLOCK_SIZES && j != c ==> final(self).pages@[j] == old(self).pages@[j]
                    &&& final(self).pages@[c].obj_sz == old(self).pages@[c].obj_sz
                    &&& (if fi < s.len() {
                        r == Some(s[fi]) && s[fi] % align == 0 && final(self).pages@[c].free_list.objs@ == s.remove(fi)
                    } else {
                        r is None && final(self).pages@[c].free_list.objs@ == s
                    })
                }
            }),
    {
        let mut index: usize = 0;
        while index < N_BLOCK_SIZES && block_sz(index) <= size
            invariant
                index <= N_BLOCK_SIZES,
                forall|j: int| 0 <= j < index ==> spec_block_sz(j) <= size,
            decreases N_BLOCK_SIZES - index,
        {
            index = index + 1;
        }
        proof {
            if index > 0 {
                assert(spec_block_sz(index - 1) <= size);
            }
            assert(index == spec_class_index(size as int));
        }
        if index == N_BLOCK_SIZES {
            return None;
        }

        let ghost pages0 = self.pages@;
        let mut page = self.pages.remove(index);
        let got = page.free_list.pop_filter(align);
        let ghost new_page = page;
        self.pages.insert(index, page);
        proof {
            assert(self.pages@ =~= pages0.update(
                index as int,
                PageHeader {
                    free_list: FreeList { objs: new_page.free_list.objs },
                    n_objs: pages0[index as int].n_objs,
                    obj_sz: pages0[index as int].obj_sz,
                },
            ));
            let c = index as int;
            let s0 = pages0[c].free_list.objs@;
            let fi = first_aligned(s0, align);
            if fi < s0.len() {
                lemma_first_aligned_char(s0, align);
                s0.remove_ensures(fi);
                let s1 = s0.remove(fi);
                assert(wf_free_list(s1, pages0[c].obj_sz as int)) by {
                    assert forall|k: int|
                        0 <= k < s1.len() implies (#[trigger] s1[k]) % (
                    pages0[c].obj_sz as u64) == 0 by {
                        if k < fi {
                            assert(s1[k] == s0[k]);
                        } else {
                            assert(s1[k] == s0[k + 1]);
                        }
                    }
                    assert forall|k: int, l: int|
                        0 <= k < l < s1.len() implies s1[k] != s1[l] by {
                        if k < fi {
                            assert(s1[k] == s0[k]);
                        } else {
                            assert(s1[k] == s0[k + 1]);
                        }
                        if l < fi {
                            assert(s1[l] == s0[l]);
                        } else {
                            assert(s1[l] == s0[l + 1]);
                        }
                    }
                }
            }
        }
        got
    }

    /// Returns an object of the class of `size` to its free list.
    /// The caller passes back what it was handed out: an address on
    /// the class's boundary that is not already free.
    pub fn dealloc(&mut self, ptr: u64, size: usize)
        requires
            old(self).wf(),
            spec_class_index(size as int) < N_BLOCK_SIZES,
            ptr % (spec_block_sz(spec_class_index(size as int)) as u64) == 0,
            !old(self).pages@[spec_class_index(size as int)].free_list.objs@.contains(ptr),
        ensures
            final(self).wf(),
            ({
                let c = spec_class_index(size as int);
                &&& forall|j: int|
                    0 <= j < N_BLOCK_SIZES && j != c ==> final(self).pages@[j] == old(self).pages@[j]
                &&& final(self).pages@[c].obj_sz == old(self).pages@[c].obj_sz
                &&& final(self).pages@[c].free_list.objs@ == old(self).pages@[c].free_list.objs@.insert(0, ptr)
            }),
    {
        let mut index: usize = 0;
        while index < N_BLOCK_SIZES && block_sz(index) <= size
            invariant
                index <= N_BLOCK_SIZES,
                forall|j: int| 0 <= j < index ==> spec_block_sz(j) <= size,
            decreases N_BLOCK_SIZES - index,
        {
            index = index + 1;
        }
        proof {
            if index > 0 {
                assert(spec_block_sz(index - 1) <= size);
            }
            assert(index == spec_class_index(size as int));
        }

        let ghost pages0 = self.pages@;
        let mut page = self.pages.remove(index);
        page.free_list.push_front(ptr);
        let ghost new_page = page;
        self.pages.insert(index, page);
        proof {
            assert(self.pages@ =~= pages0.update(
                index as int,
                PageHeader {
                    free_list: FreeList { objs: new_page.free_list.objs },
                    n_objs: pages0[index as int].n_objs,
                    obj_sz: pages0[index as int].obj_sz,
                },
            ));
            let c = index as int;
            let s0 = pages0[c].free_list.objs@;
            assert forall|k: int, l: int|
                0 <= k < l < s0.insert(0, ptr).len() implies s0.insert(0, ptr)[k] != s0.insert(
                0,
                ptr,
            )[l] by {
                if k == 0 {
                    assert(s0.insert(0, ptr)[l] == s0[l - 1]);
                    assert(s0.contains(s0[l - 1]));
                }
            }
        }
    }
}

/// Frame-allocator round trip: if the scan finds `s` for a request
/// of `n` frames, then after allocating that run and freeing it
/// again every bit of the map reads as it did at the start — so an
/// identical request lands on the same `s` again.
pub proof fn lemma_allocate_free_allocate(
    before: Seq<u8>,
    between: Seq<u8>,
    after: Seq<u8>,
    range: (usize, usize),
    n: int,
    s: int,
)
    requires
        before.len() == between.len() == after.len(),
        is_first_fit(before, range, n, s),
        // what allocate(n) == Some(s) did
        forall|g: int| s <= g < s + n ==> bit_at(between, g),
        forall|g: int|
            0 <= g < 8 * before.len() && !(s <= g < s + n) ==> bit_at(between, g) == bit_at(
                before,
                g,
            ),
        // what free(s, n) did
        forall|g: int| s <= g < s + n ==> !bit_at(after, g),
        forall|g: int|
            0 <= g < 8 * between.len() && !(s <= g < s + n) ==> bit_at(after, g) == bit_at(
                between,
                g,
            ),
        // the scan stays inside the bitmap
        range.1 <= 8 * before.len(),
        0 <= s,
    ensures
        forall|g: int| 0 <= g < 8 * before.len() ==> bit_at(after, g) == bit_at(before, g),
        is_first_fit(after, range, n, s),
{
    assert forall|g: int| 0 <= g < 8 * before.len() implies bit_at(after, g) == bit_at(before, g)
        by {
        if s <= g < s + n {
            assert(!bit_at(before, s + (g - s)));
        }
    }
    assert(run_free(after, s, n));
    assert forall|t: int| range.0 <= t < s implies !run_free(after, t, n) by {
        assert(!run_free(before, t, n));
        let i = choose|i: int| 0 <= i < n && #[trigger] bit_at(before, t + i);
        assert(bit_at(before, t + i));
        assert(t + i < s + n);
        assert(0 <= t + i < 8 * before.len());
        assert(bit_at(after, t + i));
    }
}

} // verus!
