//! Where the jumps, calls, returns and restarts send the program

use vstd::prelude::*;
use crate::io::spec_read;
use crate::cpu::{CpuView, Flags, spec_next_byte, spec_next_word, spec_pop_word, spec_push_word,
    spec_push_byte, spec_pop_byte, spec_store};
use crate::cpu::instructions::{Cond, spec_jp_nn, spec_jp_cc_nn, spec_jr_sn, spec_jr_cc_sn,
    spec_call_cc_nn, spec_ret_cc, spec_rst, spec_cond, spec_jr_target};
use crate::cpu::stack::{spec_stack_in_ram, lemma_push_pop_word};

verus! {

/// Whether condition `cc` holds: `NZ` and `Z` look at the zero flag,
/// `NC` and `C` at the carry flag
pub open spec fn holds(f: Flags, cc: Cond) -> bool {
    ||| cc == Cond::NZ && !f.z
    ||| cc == Cond::Z && f.z
    ||| cc == Cond::NC && !f.c
    ||| cc == Cond::C && f.c
}

/// Little endian address held by the two bytes at `pc`
pub open spec fn operand_address(s: CpuView) -> int {
    spec_read(s.inter, s.regs.pc) + 256 * spec_read(s.inter, ((s.regs.pc + 1) % 0x10000) as u16)
}

/// Relative offset held by the byte at `pc`, as a signed number
pub open spec fn operand_offset(s: CpuView) -> int {
    let n = spec_read(s.inter, s.regs.pc);
    if n < 128 {
        n as int
    } else {
        n - 256
    }
}

/// `JP nn` goes to the address of its operand; `JP cc, nn` does so when
/// the condition holds and otherwise goes on after the operand.
pub proof fn lemma_jumps(s: CpuView, cc: Cond)
    ensures
        spec_jp_nn(s).regs.pc == operand_address(s),
        spec_jp_cc_nn(s, cc).regs.pc == if holds(s.flags, cc) {
            operand_address(s)
        } else {
            (s.regs.pc + 2) % 0x10000
        },
        spec_cond(s.flags, cc) == holds(s.flags, cc),
{
    reveal(spec_jp_nn);
    reveal(spec_jp_cc_nn);
    reveal(spec_next_word);
    reveal(spec_next_byte);
}

/// Target of a relative jump: the address after the operand plus the
/// signed offset, wrapping around
proof fn lemma_jr_target(pc: u16, n: u8)
    ensures
        spec_jr_target(pc, n) == (pc + (if n < 128 {
            n as int
        } else {
            n - 256
        }) + 0x10000) % 0x10000,
{
    assert(((n as i8) as i16) as int == (if n < 128 {
        n as int
    } else {
        n - 256
    })) by (bit_vector);
}

/// `JR n` goes to the address after its operand plus the signed
/// operand; `JR cc, n` does so when the condition holds and otherwise
/// goes on after the operand.
pub proof fn lemma_relative_jumps(s: CpuView, cc: Cond)
    ensures
        spec_jr_sn(s).regs.pc == (s.regs.pc + 1 + operand_offset(s) + 0x10000) % 0x10000,
        spec_jr_cc_sn(s, cc).regs.pc == if holds(s.flags, cc) {
            (s.regs.pc + 1 + operand_offset(s) + 0x10000) % 0x10000
        } else {
            (s.regs.pc + 1) % 0x10000
        },
{
    reveal(spec_jr_sn);
    reveal(spec_jr_cc_sn);
    reveal(spec_next_byte);
    lemma_jr_target(s.regs.pc.wrapping_add(1), spec_read(s.inter, s.regs.pc));
}

/// `CALL cc, nn` goes to its operand's address when the condition
/// holds, and otherwise goes on after the operand; `RET cc` returns
/// only when the condition holds.
pub proof fn lemma_conditional_calls(s: CpuView, cc: Cond)
    ensures
        spec_call_cc_nn(s, cc).regs.pc == if holds(s.flags, cc) {
            operand_address(s)
        } else {
            (s.regs.pc + 2) % 0x10000
        },
        !holds(s.flags, cc) ==> spec_ret_cc(s, cc) == s,
{
    reveal(spec_call_cc_nn);
    reveal(spec_ret_cc);
    reveal(spec_next_word);
    reveal(spec_next_byte);
}

/// `RST` goes to its fixed address and pushes the address of the next
/// instruction, which a return pops back.
pub proof fn lemma_restart(s: CpuView, addr: u16)
    requires
        spec_stack_in_ram(s),
    ensures
        spec_rst(s, addr).regs.pc == addr,
        spec_pop_word(spec_rst(s, addr)).1 == s.regs.pc,
        spec_pop_word(spec_rst(s, addr)).0.regs.sp == s.regs.sp,
{
    reveal(spec_rst);
    lemma_push_pop_word(s, s.regs.pc);
    reveal(spec_push_word);
    reveal(spec_push_byte);
    reveal(spec_store);
    reveal(spec_pop_word);
    reveal(spec_pop_byte);
}

} // verus!
