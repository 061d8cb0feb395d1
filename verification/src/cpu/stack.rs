//! What the stack instructions undo of each other

use vstd::prelude::*;
use crate::bits::{hi_byte, lo_byte, lemma_word_bytes};
use crate::io::{Interrupt, spec_is_ram, spec_read, spec_write, spec_ack, lemma_ram_read_after_write,
    WORK_RAM_SIZE, HIGH_RAM_SIZE};
use crate::cpu::{CpuView, Reg16, spec_get16, spec_set16, spec_push_word, spec_pop_word,
    spec_push_byte, spec_pop_byte, spec_store, spec_service, spec_f, spec_flags_of};
use crate::cpu::instructions::{spec_push_rr, spec_pop_rr, spec_call_nn, spec_ret, spec_reti};

verus! {

/// The stack grows down from `sp` through plain RAM: the two bytes
/// below the stack pointer are work RAM (or its echo) or high RAM
pub open spec fn spec_stack_in_ram(s: CpuView) -> bool {
    &&& s.inter.ram.len() == WORK_RAM_SIZE
    &&& s.inter.hram.len() == HIGH_RAM_SIZE
    &&& spec_is_ram(s.regs.sp.wrapping_sub(1))
    &&& spec_is_ram(s.regs.sp.wrapping_sub(2))
}

/// Popping a word right after pushing it gives the word back and puts
/// the stack pointer back where it was; no register changes.
pub proof fn lemma_push_pop_word(s: CpuView, w: u16)
    requires
        spec_stack_in_ram(s),
    ensures
        spec_pop_word(spec_push_word(s, w)).1 == w,
        spec_pop_word(spec_push_word(s, w)).0.regs == s.regs,
        spec_pop_word(spec_push_word(s, w)).0.flags == s.flags,
        spec_pop_word(spec_push_word(s, w)).0.iten == s.iten,
        spec_pop_word(spec_push_word(s, w)).0.instruction_delay == s.instruction_delay,
{
    reveal(spec_push_word);
    reveal(spec_push_byte);
    reveal(spec_store);
    reveal(spec_pop_word);
    reveal(spec_pop_byte);
    let a1 = s.regs.sp.wrapping_sub(1);
    let a2 = s.regs.sp.wrapping_sub(2);
    let v1 = spec_write(s.inter, a1, hi_byte(w));
    reveal(spec_write);
    let v2 = spec_write(v1, a2, lo_byte(w));
    lemma_ram_read_after_write(s.inter, a1, a1, hi_byte(w));
    lemma_ram_read_after_write(v1, a2, a2, lo_byte(w));
    lemma_ram_read_after_write(v1, a2, a1, lo_byte(w));
    assert(spec_read(v2, a2) == lo_byte(w));
    assert(spec_read(v2, a1) == hi_byte(w));
    lemma_word_bytes(0, 0, w);
}

/// `PUSH rr` followed by `POP rr` leaves every register and flag as it
/// was.
pub proof fn lemma_push_pop_rr(s: CpuView, rr: Reg16)
    requires
        spec_stack_in_ram(s),
        rr != Reg16::SP,
    ensures
        spec_pop_rr(spec_push_rr(s, rr), rr).regs == s.regs,
        spec_pop_rr(spec_push_rr(s, rr), rr).flags == s.flags,
{
    reveal(spec_push_rr);
    reveal(spec_pop_rr);
    let w = spec_get16(s, rr);
    lemma_push_pop_word(s, w);
    reveal(spec_get16);
    reveal(spec_set16);
    let f = spec_f(s.flags);
    lemma_word_bytes(s.regs.a, f, w);
    lemma_word_bytes(s.regs.b, s.regs.c, 0);
    lemma_word_bytes(s.regs.d, s.regs.e, 0);
    lemma_word_bytes(s.regs.h, s.regs.l, 0);
    lemma_flags_roundtrip(s.flags);
}

/// Writing the `F` register with its own value keeps the flags.
pub proof fn lemma_flags_roundtrip(f: crate::cpu::Flags)
    ensures
        spec_flags_of(spec_f(f)) == f,
{
    let v = spec_f(f);
    let (z, n, h, c) = (f.z, f.n, f.h, f.c);
    assert(v == 128 * (if z { 1u8 } else { 0u8 }) + 64 * (if n { 1u8 } else { 0u8 }) + 32 * (if h {
        1u8
    } else {
        0u8
    }) + 16 * (if c { 1u8 } else { 0u8 }));
    assert((v & 0x80 != 0) == z && (v & 0x40 != 0) == n && (v & 0x20 != 0) == h && (v & 0x10 != 0)
        == c) by (bit_vector)
        requires
            v == 128 * (if z { 1u8 } else { 0u8 }) + 64 * (if n { 1u8 } else { 0u8 }) + 32 * (if h {
                1u8
            } else {
                0u8
            }) + 16 * (if c { 1u8 } else { 0u8 }),
    ;
}

/// `RET` right after `CALL nn` returns to the instruction that
/// follows the call, with the stack pointer back where it was. `s` is
/// the state once the opcode has been fetched, with `pc` on the two
/// address bytes: the return address is the byte after them.
pub proof fn lemma_call_ret(s: CpuView)
    requires
        spec_stack_in_ram(s),
    ensures
        spec_ret(spec_call_nn(s)).regs.pc == s.regs.pc.wrapping_add(2),
        spec_ret(spec_call_nn(s)).regs.sp == s.regs.sp,
{
    reveal(spec_call_nn);
    reveal(spec_ret);
    reveal(crate::cpu::spec_next_word);
    reveal(crate::cpu::spec_next_byte);
    let (t, nn) = crate::cpu::spec_next_word(s);
    lemma_push_pop_word(t, t.regs.pc);
    reveal(spec_push_word);
    reveal(spec_push_byte);
    reveal(spec_store);
    reveal(spec_pop_word);
    reveal(spec_pop_byte);
}

/// `RETI` at the end of an interrupt handler goes back to where the
/// interrupt was entered, with interrupts enabled again.
pub proof fn lemma_interrupt_reti(s: CpuView, it: Interrupt)
    requires
        spec_stack_in_ram(s),
    ensures
        spec_reti(spec_service(s, it)).regs.pc == s.regs.pc,
        spec_reti(spec_service(s, it)).regs.sp == s.regs.sp,
        spec_reti(spec_service(s, it)).iten,
{
    reveal(spec_reti);
    let s1 = CpuView { inter: spec_ack(s.inter, it), ..s };
    let s2 = CpuView {
        halted: false,
        iten: false,
        iten_enable_next: false,
        instruction_delay: 32,
        ..s1
    };
    lemma_push_pop_word(s2, s.regs.pc);
    reveal(spec_push_word);
    reveal(spec_push_byte);
    reveal(spec_store);
    reveal(spec_pop_word);
    reveal(spec_pop_byte);
}

/// `PUSH rr` followed by `POP qq` copies register pair `rr` into `qq`
/// and leaves every other register, the stack pointer and the flags
/// as they were.
pub proof fn lemma_push_pop_transfer(s: CpuView, rr: Reg16, qq: Reg16)
    requires
        spec_stack_in_ram(s),
        rr != Reg16::SP,
        rr != Reg16::AF,
        qq != Reg16::SP,
        qq != Reg16::AF,
    ensures
        spec_pop_rr(spec_push_rr(s, rr), qq).regs == spec_set16(s, qq, spec_get16(s, rr)).regs,
        spec_pop_rr(spec_push_rr(s, rr), qq).flags == s.flags,
        spec_get16(spec_pop_rr(spec_push_rr(s, rr), qq), qq) == spec_get16(s, rr),
{
    reveal(spec_push_rr);
    reveal(spec_pop_rr);
    let w = spec_get16(s, rr);
    lemma_push_pop_word(s, w);
    reveal(spec_set16);
    reveal(spec_get16);
    lemma_word_bytes(0, 0, w);
}

} // verus!
