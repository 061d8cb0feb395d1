//! What happens at an instruction boundary: interrupts and HALT

use vstd::prelude::*;
use crate::io::{Interrupt, spec_next_interrupt};
use crate::cpu::{CpuView, spec_boundary, spec_execute, spec_service, spec_step, spec_handler,
    spec_push_word, spec_push_byte, spec_store};

verus! {

/// While interrupts are enabled, the highest priority pending
/// interrupt is entered at the next instruction boundary: its handler
/// runs next, whether or not the CPU was halted, and interrupts are
/// disabled.
pub proof fn lemma_interrupt_entered(s: CpuView, it: Interrupt)
    requires
        s.iten,
        spec_next_interrupt(s.inter) == Some(it),
    ensures
        spec_boundary(s) == (spec_service(s, it), Ok::<(), crate::cpu::CpuError>(())),
        spec_boundary(s).0.regs.pc == spec_handler(it),
        !spec_boundary(s).0.halted,
        !spec_boundary(s).0.iten,
{
    reveal(spec_push_word);
    reveal(spec_push_byte);
    reveal(spec_store);
}

/// HALT while interrupts are disabled: a pending interrupt (enabled in
/// `IE`) wakes the CPU up, but its handler does not run; the code
/// after the HALT runs instead.
pub proof fn lemma_halt_wakes_without_handler(s: CpuView)
    requires
        s.halted,
        !s.iten,
        !s.iten_enable_next,
        spec_next_interrupt(s.inter) is Some,
    ensures
        spec_boundary(s) == spec_execute(s),
{
    assert(CpuView { iten: s.iten_enable_next, ..s } == s);
}

/// A halted CPU with no pending interrupt keeps waiting: nothing runs
/// and the program counter doesn't move.
pub proof fn lemma_halt_waits(s: CpuView)
    requires
        s.halted,
        spec_next_interrupt(s.inter) is None,
    ensures
        spec_boundary(s).0.halted,
        spec_boundary(s).0.regs == s.regs,
        spec_boundary(s).0.inter == s.inter,
        spec_boundary(s).1 is Ok,
{
}

/// While an instruction is still running, a tick of the clock only
/// counts down its delay; the registers don't change.
pub proof fn lemma_step_waits_for_instruction(s: CpuView)
    requires
        s.instruction_delay > 0,
    ensures
        spec_step(s).0.instruction_delay == s.instruction_delay - 1,
        spec_step(s).0.regs == s.regs,
        spec_step(s).0.flags == s.flags,
        spec_step(s).1 is Ok,
{
}

} // verus!
