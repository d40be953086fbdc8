//! The register frame: the saved user-mode context shared between the trap
//! dispatcher and the mode-switch trampoline.
//!
//! The trampoline saves all 32 general-purpose registers, the status word and
//! the resume program counter on every trap, and restores them on resume.
//! The dispatcher marshals syscall arguments and return values through fixed
//! register slots of this frame.

use vstd::prelude::*;

verus! {

/// Number of general-purpose registers in one frame.
pub const NUM_REGS: usize = 32;

/// Register slot reserved for the stack pointer.
pub const REG_SP: usize = 2;

/// Register slot of the first syscall argument, and of the return value.
pub const REG_A0: usize = 10;

/// Register slot of the second syscall argument.
pub const REG_A1: usize = 11;

/// Register slot of the third syscall argument.
pub const REG_A2: usize = 12;

/// Register slot carrying the syscall number.
pub const REG_A7: usize = 17;

/// Privilege level a trap return resumes into.
#[derive(Clone, Copy, PartialEq, Eq, Structural, Debug)]
pub enum Privilege {
    User,
    Supervisor,
}

/// The slice of the hardware status word that the core reads and writes:
/// the previous-privilege field deciding which mode a trap return enters.
/// The remaining status bits belong to the hardware and pass through the
/// trampoline untouched.
#[derive(Clone, Copy, PartialEq, Eq, Structural, Debug)]
pub struct Sstatus {
    pub spp: Privilege,
}

/// Mathematical model of one register frame.
#[verifier::ext_equal]
pub struct FrameView {
    pub regs: Seq<usize>,
    pub sstatus: Sstatus,
    pub sepc: usize,
}

/// The frame built when an app is launched: resume at `entry` in user
/// privilege, stack pointer in its reserved slot, all other registers zero.
pub open spec fn initial_frame(entry: usize, sp: usize) -> FrameView {
    FrameView {
        regs: Seq::new(32, |i: int| if i == 2 { sp } else { 0usize }),
        sstatus: Sstatus { spp: Privilege::User },
        sepc: entry,
    }
}

/// A register frame. The byte-for-byte layout contract with the assembly
/// trampoline lives with the trampoline; the core works on this record.
pub struct TrapContext {
    pub regs: Vec<usize>,
    pub sstatus: Sstatus,
    pub sepc: usize,
}

impl View for TrapContext {
    type V = FrameView;

    open spec fn view(&self) -> FrameView {
        FrameView { regs: self.regs@, sstatus: self.sstatus, sepc: self.sepc }
    }
}

impl TrapContext {
    /// A frame always carries exactly the machine's register count.
    pub open spec fn wf(&self) -> bool {
        self.regs@.len() == 32
    }

    /// Builds the frame that launches an app: entry point, user privilege,
    /// the given stack top, everything else zeroed.
    pub fn new(entry: usize, sp: usize) -> (r: TrapContext)
        ensures
            r@ == initial_frame(entry, sp),
            r.wf(),
    {
        let mut regs: Vec<usize> = Vec::new();
        let mut i: usize = 0;
        while i < NUM_REGS
            invariant
                i <= 32,
                regs@.len() == i,
                forall|j: int| 0 <= j < i ==> regs@[j] == 0usize,
            decreases 32 - i,
        {
            regs.push(0);
            i = i + 1;
        }
        let mut r = TrapContext { regs, sstatus: Sstatus { spp: Privilege::User }, sepc: entry };
        r.set_stack_pointer(sp);
        assert(r@ =~= initial_frame(entry, sp));
        r
    }

    /// Seeds the reserved stack-pointer slot.
    pub fn set_stack_pointer(&mut self, ptr: usize)
        requires
            old(self).wf(),
        ensures
            final(self)@.regs == old(self)@.regs.update(2, ptr),
            final(self)@.sstatus == old(self)@.sstatus,
            final(self)@.sepc == old(self)@.sepc,
            final(self).wf(),
    {
        self.set_reg(REG_SP, ptr);
    }

    /// Reads register `i`.
    pub fn reg(&self, i: usize) -> (r: usize)
        requires
            self.wf(),
            i < 32,
        ensures
            r == self@.regs[i as int],
    {
        self.regs[i]
    }

    /// Writes register `i`.
    pub fn set_reg(&mut self, i: usize, v: usize)
        requires
            old(self).wf(),
            i < 32,
        ensures
            final(self)@.regs == old(self)@.regs.update(i as int, v),
            final(self)@.sstatus == old(self)@.sstatus,
            final(self)@.sepc == old(self)@.sepc,
            final(self).wf(),
    {
        self.regs.set(i, v);
    }
}

} // verus!
