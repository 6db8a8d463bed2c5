//! Saved task contexts and the round-robin pick of the cooperative
//! task switch. The context-switch itself — saving and loading the
//! registers — happens outside the library; the library owns the
//! saved values and the decision which two contexts swap.

use vstd::prelude::*;

verus! {

/// The flags word of a freshly created task: interrupts enabled.
pub const INITIAL_RFLAGS: u64 = 0x202;

/// The MXCSR image of a freshly created task's FX area: all SSE
/// exceptions masked.
pub const INITIAL_MXCSR: u32 = 0x1f80;

/// One task's saved CPU state: general registers, control state and
/// the 512-byte FX save area (as 128 words).
pub struct TaskContext {
    pub cr3: u64,
    pub rip: u64,
    pub rflags: u64,
    pub rsvd1: u64,
    pub cs: u64,
    pub ss: u64,
    pub fs: u64,
    pub gs: u64,
    pub rax: u64,
    pub rbx: u64,
    pub rcx: u64,
    pub rdx: u64,
    pub rdi: u64,
    pub rsi: u64,
    pub rsp: u64,
    pub rbp: u64,
    pub r8: u64,
    pub r9: u64,
    pub r10: u64,
    pub r11: u64,
    pub r12: u64,
    pub r13: u64,
    pub r14: u64,
    pub r15: u64,
    pub fxsave_area: Vec<u32>,
}

impl TaskContext {
    pub open spec fn wf(&self) -> bool {
        self.fxsave_area@.len() == 128
    }

    /// A zeroed context.
    pub fn new() -> (r: Self)
        ensures
            r.wf(),
            r.cr3 == 0 && r.rip == 0 && r.rflags == 0 && r.rsvd1 == 0,
            r.cs == 0 && r.ss == 0 && r.fs == 0 && r.gs == 0,
            r.rax == 0 && r.rbx == 0 && r.rcx == 0 && r.rdx == 0,
            r.rdi == 0 && r.rsi == 0 && r.rsp == 0 && r.rbp == 0,
            r.r8 == 0 && r.r9 == 0 && r.r10 == 0 && r.r11 == 0,
            r.r12 == 0 && r.r13 == 0 && r.r14 == 0 && r.r15 == 0,
            forall|i: int| 0 <= i < 128 ==> r.fxsave_area@[i] == 0u32,
    {
        let mut fxsave_area: Vec<u32> = Vec::new();
        let mut i: usize = 0;
        while i < 128
            invariant
                i <= 128,
                fxsave_area@.len() == i,
                forall|j: int| 0 <= j < i ==> fxsave_area@[j] == 0u32,
            decreases 128 - i,
        {
            fxsave_area.push(0);
            i = i + 1;
        }
        TaskContext {
            cr3: 0,
            rip: 0,
            rflags: 0,
            rsvd1: 0,
            cs: 0,
            ss: 0,
            fs: 0,
            gs: 0,
            rax: 0,
            rbx: 0,
            rcx: 0,
            rdx: 0,
            rdi: 0,
            rsi: 0,
            rsp: 0,
            rbp: 0,
            r8: 0,
            r9: 0,
            r10: 0,
            r11: 0,
            r12: 0,
            r13: 0,
            r14: 0,
            r15: 0,
            fxsave_area,
        }
    }
}

impl TaskContext {
    /// Fills a context for a fresh task: its entry point and two
    /// arguments, a 16-byte-aligned stack top backed off by one
    /// slot, interrupts enabled, the given selectors and page
    /// table, and an FX area whose MXCSR masks all SSE exceptions.
    pub fn init_for_task(
        &mut self,
        rip: u64,
        rdi: u64,
        rsi: u64,
        stack_end: u64,
        cs: u64,
        ss: u64,
        cr3: u64,
    )
        requires
            old(self).wf(),
            (stack_end & 0xffff_ffff_ffff_fff0) >= 8,
        ensures
            final(self).wf(),
            final(self).rip == rip,
            final(self).rdi == rdi,
            final(self).rsi == rsi,
            final(self).rsp == (stack_end & 0xffff_ffff_ffff_fff0) - 8,
            final(self).rflags == INITIAL_RFLAGS,
            final(self).cs == cs,
            final(self).ss == ss,
            final(self).cr3 == cr3,
            final(self).fxsave_area@ == old(self).fxsave_area@.update(6, INITIAL_MXCSR),
    {
        self.rip = rip;
        self.rdi = rdi;
        self.rsi = rsi;
        self.rsp = (stack_end & 0xffff_ffff_ffff_fff0) - 8;
        self.rflags = INITIAL_RFLAGS;
        self.cs = cs;
        self.ss = ss;
        self.cr3 = cr3;
        self.fxsave_area.set(6, INITIAL_MXCSR);
    }
}

/// The kernel's tasks in their run order: the context at the front
/// is running, the one behind it runs next.
pub struct TaskManager {
    pub ctxs: Vec<TaskContext>,
}

impl TaskManager {
    /// Rotates the run order for one cooperative switch: the running
    /// task goes to the back, and the caller saves into the moved
    /// context while loading from the new front.
    pub fn rotate(&mut self)
        requires
            old(self).ctxs@.len() >= 1,
        ensures
            final(self).ctxs@ == old(self).ctxs@.drop_first().push(old(self).ctxs@[0]),
    {
        let front = self.ctxs.remove(0);
        self.ctxs.push(front);
        proof {
            assert(self.ctxs@ =~= old(self).ctxs@.drop_first().push(old(self).ctxs@[0]));
        }
    }
}

} // verus!
