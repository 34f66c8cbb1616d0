//! The saved register state that crosses a privilege boundary, and the rule
//! that synthesizes one for a program that has never run.

use vstd::prelude::*;

use crate::sstatus::spp_of;
use crate::sstatus::with_spp;
use crate::sstatus::Spp;
use crate::sstatus::Sstatus;

verus! {

/// The complete machine state of a program at a privilege transition.
///
/// The trap-entry mechanism fills one of these from live hardware state when
/// a program traps into the kernel; the trap-return mechanism restores the
/// hardware from it and resumes at `sepc` under the privilege level encoded
/// in `sstatus`.
pub struct TrapContext {
    /// General-purpose registers, indexed by hardware register number.
    /// Slot 0 is the hardwired-zero register; slot 2 holds the stack
    /// pointer by convention.
    pub x: [usize; 32],
    /// The saved `sstatus` word; its SPP field decides the privilege level
    /// execution resumes at.
    pub sstatus: Sstatus,
    /// The saved `sepc` word: the instruction address execution resumes at.
    pub sepc: usize,
}

impl TrapContext {
    /// What the initial context of a not-yet-run program holds, given the
    /// ambient status word it was synthesized under: every register is zero
    /// but the stack pointer, execution resumes at the entry address, and
    /// the status is the ambient word with its previous privilege forced to
    /// user mode.
    pub open spec fn is_app_init(self, entry: usize, sp: usize, ambient: usize) -> bool {
        &&& self.sepc == entry
        &&& self.x@[2] == sp
        &&& (forall|i: int| 0 <= i < 32 && i != 2 ==> self.x@[i] == 0)
        &&& self.sstatus@ == with_spp(ambient, Spp::User)
        &&& spp_of(self.sstatus@) == Spp::User
    }

    /// Overwrites register slot 2, the stack-pointer slot; every other
    /// register, the status word and the resume address are unchanged.
    pub fn set_sp(&mut self, sp: usize)
        ensures
            final(self).x@ == old(self).x@.update(2, sp),
            final(self).sstatus == old(self).sstatus,
            final(self).sepc == old(self).sepc,
    {
        self.x[2] = sp;
    }

    /// Synthesizes the initial context of a program that has never run,
    /// from an explicitly supplied ambient status word: all registers are
    /// zeroed, the stack pointer is placed in slot 2, execution will resume
    /// at `entry`, and the previous privilege level is forced to user mode
    /// while every other ambient status bit is inherited.
    pub fn app_init_context_with_status(entry: usize, sp: usize, ambient: Sstatus) -> (r:
        TrapContext)
        ensures
            r.is_app_init(entry, sp, ambient@),
    {
        let mut sstatus = ambient;
        sstatus.set_spp(Spp::User);
        let mut cx = TrapContext { x: [0usize; 32], sstatus, sepc: entry };
        cx.set_sp(sp);
        cx
    }

    /// Synthesizes the initial context of a program that has never run,
    /// inheriting the ambient mode and interrupt-enable bits from the live
    /// `sstatus` register of the executing hart. On a target without that
    /// register the all-clear status word stands in as the template.
    ///
    /// Whatever the ambient word was, the result resumes at `entry` in user
    /// mode, with all registers zero but the stack pointer in slot 2.
    pub fn app_init_context(entry: usize, sp: usize) -> (r: TrapContext)
        ensures
            r.sepc == entry,
            r.x@[2] == sp,
            (forall|i: int| 0 <= i < 32 && i != 2 ==> r.x@[i] == 0),
            spp_of(r.sstatus@) == Spp::User,
    {
        let ambient = match crate::sstatus::read_ambient() {
            Some(s) => s,
            None => Sstatus::new(),
        };
        Self::app_init_context_with_status(entry, sp, ambient)
    }
}

/// Law: synthesizing an initial context is deterministic. Two contexts built
/// from the same entry address, the same stack pointer and the same ambient
/// status word hold the same registers, the same resume address and the same
/// status word — in particular the same previous-privilege level.
pub proof fn lemma_app_init_deterministic(
    entry: usize,
    sp: usize,
    ambient: usize,
    first: TrapContext,
    second: TrapContext,
)
    requires
        first.is_app_init(entry, sp, ambient),
        second.is_app_init(entry, sp, ambient),
    ensures
        first.x == second.x,
        first.sepc == second.sepc,
        first.sstatus@ == second.sstatus@,
        spp_of(first.sstatus@) == spp_of(second.sstatus@),
{
    assert(first.x =~= second.x);
}

} // verus!
