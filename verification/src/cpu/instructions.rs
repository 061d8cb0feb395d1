//! Game Boy CPU instructions

use vstd::prelude::*;
use crate::bits::{word, hi_byte, lo_byte};
use crate::io::spec_read;
use crate::cpu::bitops::{ShiftOp, spec_shift_r, spec_shift_mhl, spec_bit_r, spec_bit_mhl,
    spec_res_r, spec_res_mhl, spec_set_r, spec_set_mhl, spec_shift_of, shift_of, shift_r, shift_mhl,
    bit_r, bit_mhl, res_r, res_mhl, set_r, set_mhl};
use crate::cpu::{Cpu, CpuView, Flags, Reg8, Reg16, spec_get8, spec_set8, spec_get16, spec_set16,
    with_pc, with_flags, spec_next_byte, spec_next_word, spec_store, spec_push_word, spec_pop_word,
    spec_add_delay, flag_bit};

verus! {

/// 8 bit arithmetic and logic operations on `A`
#[derive(Clone, Copy, PartialEq, Eq, Structural, Debug)]
pub enum AluOp {
    Add,
    Adc,
    Sub,
    Sbc,
    And,
    Xor,
    Or,
    Cp,
}

/// Conditions of the conditional jumps, calls and returns
#[derive(Clone, Copy, PartialEq, Eq, Structural, Debug)]
pub enum Cond {
    NZ,
    Z,
    NC,
    C,
}

/// Rotations of `A`
#[derive(Clone, Copy, PartialEq, Eq, Structural, Debug)]
pub enum RotA {
    Rlca,
    Rla,
    Rrca,
    Rra,
}

/// `true` if condition `cc` holds for flags `f`
pub open spec fn spec_cond(f: Flags, cc: Cond) -> bool {
    match cc {
        Cond::NZ => !f.z,
        Cond::Z => f.z,
        Cond::NC => !f.c,
        Cond::C => f.c,
    }
}

/// Result and flags of operation `op` on `a` and `v` with carry flag
/// `carry`. Subtractions set the carry on a borrow and the half carry
/// on a borrow from bit 4.
pub open spec fn spec_alu(op: AluOp, a: u8, v: u8, carry: bool) -> (u8, Flags) {
    let cin = flag_bit(carry);
    match op {
        AluOp::Add => (
            ((a + v) % 256) as u8,
            Flags { z: (a + v) % 256 == 0, n: false, h: a % 16 + v % 16 >= 16, c: a + v >= 256 },
        ),
        AluOp::Adc => (
            ((a + v + cin) % 256) as u8,
            Flags {
                z: (a + v + cin) % 256 == 0,
                n: false,
                h: a % 16 + v % 16 + cin >= 16,
                c: a + v + cin >= 256,
            },
        ),
        AluOp::Sub | AluOp::Cp => (
            ((a - v + 256) % 256) as u8,
            Flags { z: a == v, n: true, h: a % 16 < v % 16, c: a < v },
        ),
        AluOp::Sbc => (
            ((a - v - cin + 512) % 256) as u8,
            Flags {
                z: (a - v - cin + 512) % 256 == 0,
                n: true,
                h: a % 16 < v % 16 + cin,
                c: a < v + cin,
            },
        ),
        AluOp::And => ((a & v), Flags { z: a & v == 0, n: false, h: true, c: false }),
        AluOp::Xor => ((a ^ v), Flags { z: a ^ v == 0, n: false, h: false, c: false }),
        AluOp::Or => ((a | v), Flags { z: a | v == 0, n: false, h: false, c: false }),
    }
}

/// State after operation `op` on `A` with operand `v`: `CP` only
/// sets the flags
pub open spec fn spec_alu_apply(s: CpuView, op: AluOp, v: u8) -> CpuView {
    let (r, f) = spec_alu(op, s.regs.a, v, s.flags.c);
    if op == AluOp::Cp {
        with_flags(s, f)
    } else {
        spec_set8(with_flags(s, f), Reg8::A, r)
    }
}

/// Operation `op` on `A` and register `r`
#[verifier::opaque]
pub open spec fn spec_alu_r(s: CpuView, op: AluOp, r: Reg8) -> CpuView {
    spec_alu_apply(s, op, spec_get8(s, r))
}

/// Operation `op` on `A` and `[HL]`
#[verifier::opaque]
pub open spec fn spec_alu_mhl(s: CpuView, op: AluOp) -> CpuView {
    spec_alu_apply(s, op, spec_read(s.inter, spec_get16(s, Reg16::HL)))
}

/// Operation `op` on `A` and an immediate value
#[verifier::opaque]
pub open spec fn spec_alu_n(s: CpuView, op: AluOp) -> CpuView {
    let (s1, n) = spec_next_byte(s);
    spec_alu_apply(s1, op, n)
}

/// Result and flags of an 8 bit increment: the carry is untouched
pub open spec fn spec_inc_val(v: u8, f: Flags) -> (u8, Flags) {
    (((v + 1) % 256) as u8, Flags { z: (v + 1) % 256 == 0, n: false, h: v % 16 == 15, c: f.c })
}

/// Result and flags of an 8 bit decrement: the carry is untouched
pub open spec fn spec_dec_val(v: u8, f: Flags) -> (u8, Flags) {
    (((v + 255) % 256) as u8, Flags { z: (v + 255) % 256 == 0, n: true, h: v % 16 == 0, c: f.c })
}

/// Increment register `r`
#[verifier::opaque]
pub open spec fn spec_inc_r(s: CpuView, r: Reg8) -> CpuView {
    let (v, f) = spec_inc_val(spec_get8(s, r), s.flags);
    spec_set8(with_flags(s, f), r, v)
}

/// Decrement register `r`
#[verifier::opaque]
pub open spec fn spec_dec_r(s: CpuView, r: Reg8) -> CpuView {
    let (v, f) = spec_dec_val(spec_get8(s, r), s.flags);
    spec_set8(with_flags(s, f), r, v)
}

/// Increment `[HL]`
#[verifier::opaque]
pub open spec fn spec_inc_mhl(s: CpuView) -> CpuView {
    let hl = spec_get16(s, Reg16::HL);
    let (v, f) = spec_inc_val(spec_read(s.inter, hl), s.flags);
    spec_store(with_flags(s, f), hl, v)
}

/// Decrement `[HL]`
#[verifier::opaque]
pub open spec fn spec_dec_mhl(s: CpuView) -> CpuView {
    let hl = spec_get16(s, Reg16::HL);
    let (v, f) = spec_dec_val(spec_read(s.inter, hl), s.flags);
    spec_store(with_flags(s, f), hl, v)
}

/// Increment 16 bit register `rr`, no flag is affected
#[verifier::opaque]
pub open spec fn spec_inc_rr(s: CpuView, rr: Reg16) -> CpuView {
    spec_set16(s, rr, spec_get16(s, rr).wrapping_add(1))
}

/// Decrement 16 bit register `rr`, no flag is affected
#[verifier::opaque]
pub open spec fn spec_dec_rr(s: CpuView, rr: Reg16) -> CpuView {
    spec_set16(s, rr, spec_get16(s, rr).wrapping_sub(1))
}

/// Add 16 bit register `rr` to `HL`: the zero flag is untouched, the
/// half carry comes from bit 11
#[verifier::opaque]
pub open spec fn spec_add_hl_rr(s: CpuView, rr: Reg16) -> CpuView {
    let x = spec_get16(s, Reg16::HL);
    let y = spec_get16(s, rr);
    spec_set16(
        with_flags(
            s,
            Flags { z: s.flags.z, n: false, h: x % 4096 + y % 4096 >= 4096, c: x + y >= 0x10000 },
        ),
        Reg16::HL,
        ((x + y) % 0x10000) as u16,
    )
}

/// Flags of `SP` plus the signed byte `n`: carry and half carry are
/// computed on the low 8 bits, the zero flag is untouched
pub open spec fn spec_sp_n_flags(sp: u16, n: u8, f: Flags) -> Flags {
    Flags { z: f.z, n: false, h: sp % 16 + n % 16 >= 16, c: sp % 256 + n >= 256 }
}

/// `SP` plus the signed byte `n`
pub open spec fn spec_sp_plus(sp: u16, n: u8) -> u16 {
    sp.wrapping_add_signed((n as i8) as i16)
}

/// Add the signed immediate byte to `SP`
#[verifier::opaque]
pub open spec fn spec_add_sp_sn(s: CpuView) -> CpuView {
    let sp = s.regs.sp;
    let (s1, n) = spec_next_byte(s);
    spec_set16(with_flags(s1, spec_sp_n_flags(sp, n, s1.flags)), Reg16::SP, spec_sp_plus(sp, n))
}

/// Load `SP` plus the signed immediate byte into `HL`
#[verifier::opaque]
pub open spec fn spec_ld_hl_sp_sn(s: CpuView) -> CpuView {
    let sp = s.regs.sp;
    let (s1, n) = spec_next_byte(s);
    spec_set16(with_flags(s1, spec_sp_n_flags(sp, n, s1.flags)), Reg16::HL, spec_sp_plus(sp, n))
}

/// Result and carry of a rotation of `A`
pub open spec fn spec_rot(op: RotA, a: u8, carry: bool) -> (u8, bool) {
    match op {
        RotA::Rlca => (((a % 128) * 2 + a / 128) as u8, a >= 128),
        RotA::Rla => (((a % 128) * 2 + flag_bit(carry)) as u8, a >= 128),
        RotA::Rrca => ((a / 2 + (a % 2) * 128) as u8, a % 2 == 1),
        RotA::Rra => ((a / 2 + flag_bit(carry) * 128) as u8, a % 2 == 1),
    }
}

/// Rotation of `A`: the carry gets the rotated bit, the other flags
/// are cleared
#[verifier::opaque]
pub open spec fn spec_rot_a(s: CpuView, op: RotA) -> CpuView {
    let (r, c) = spec_rot(op, s.regs.a, s.flags.c);
    spec_set8(with_flags(s, Flags { z: false, n: false, h: false, c: c }), Reg8::A, r)
}

/// Complement `A`
#[verifier::opaque]
pub open spec fn spec_cpl(s: CpuView) -> CpuView {
    with_flags(
        spec_set8(s, Reg8::A, (255 - s.regs.a) as u8),
        Flags { n: true, h: true, ..s.flags },
    )
}

/// Complement the carry flag
#[verifier::opaque]
pub open spec fn spec_ccf(s: CpuView) -> CpuView {
    with_flags(s, Flags { c: !s.flags.c, n: false, h: false, ..s.flags })
}

/// Set the carry flag
#[verifier::opaque]
pub open spec fn spec_scf(s: CpuView) -> CpuView {
    with_flags(s, Flags { c: true, n: false, h: false, ..s.flags })
}

/// No operation
#[verifier::opaque]
pub open spec fn spec_nop(s: CpuView) -> CpuView {
    s
}

/// Undefined opcode: the CPU stalls on it
#[verifier::opaque]
pub open spec fn spec_undefined(s: CpuView) -> CpuView {
    with_pc(s, s.regs.pc.wrapping_sub(1))
}

/// Load register `r` into register `d`
#[verifier::opaque]
pub open spec fn spec_ld_r_r(s: CpuView, d: Reg8, r: Reg8) -> CpuView {
    spec_set8(s, d, spec_get8(s, r))
}

/// Load an immediate byte into register `d`
#[verifier::opaque]
pub open spec fn spec_ld_r_n(s: CpuView, d: Reg8) -> CpuView {
    let (s1, n) = spec_next_byte(s);
    spec_set8(s1, d, n)
}

/// Load the byte at the address in `rr` into register `d`
#[verifier::opaque]
pub open spec fn spec_ld_r_mrr(s: CpuView, d: Reg8, rr: Reg16) -> CpuView {
    spec_set8(s, d, spec_read(s.inter, spec_get16(s, rr)))
}

/// Store register `r` at the address in `rr`
#[verifier::opaque]
pub open spec fn spec_ld_mrr_r(s: CpuView, rr: Reg16, r: Reg8) -> CpuView {
    spec_store(s, spec_get16(s, rr), spec_get8(s, r))
}

/// Store an immediate byte at `[HL]`
#[verifier::opaque]
pub open spec fn spec_ld_mhl_n(s: CpuView) -> CpuView {
    let (s1, n) = spec_next_byte(s);
    spec_store(s1, spec_get16(s1, Reg16::HL), n)
}

/// Load the byte at an immediate address into `A`
#[verifier::opaque]
pub open spec fn spec_ld_a_mnn(s: CpuView) -> CpuView {
    let (s1, nn) = spec_next_word(s);
    spec_set8(s1, Reg8::A, spec_read(s1.inter, nn))
}

/// Store `A` at an immediate address
#[verifier::opaque]
pub open spec fn spec_ld_mnn_a(s: CpuView) -> CpuView {
    let (s1, nn) = spec_next_word(s);
    spec_store(s1, nn, s.regs.a)
}

/// Store `SP` at an immediate address, low byte first
#[verifier::opaque]
pub open spec fn spec_ld_mnn_sp(s: CpuView) -> CpuView {
    let sp = s.regs.sp;
    let (s1, nn) = spec_next_word(s);
    spec_store(spec_store(s1, nn, lo_byte(sp)), nn.wrapping_add(1), hi_byte(sp))
}

/// Load an immediate word into 16 bit register `rr`
#[verifier::opaque]
pub open spec fn spec_ld_rr_nn(s: CpuView, rr: Reg16) -> CpuView {
    let (s1, nn) = spec_next_word(s);
    spec_set16(s1, rr, nn)
}

/// Load `HL` into `SP`
#[verifier::opaque]
pub open spec fn spec_ld_sp_hl(s: CpuView) -> CpuView {
    spec_set16(s, Reg16::SP, spec_get16(s, Reg16::HL))
}

/// `HL` incremented (`inc`) or decremented
pub open spec fn spec_hl_step(hl: u16, inc: bool) -> u16 {
    if inc {
        hl.wrapping_add(1)
    } else {
        hl.wrapping_sub(1)
    }
}

/// Store `A` at `[HL]` then increment (`inc`) or decrement `HL`
#[verifier::opaque]
pub open spec fn spec_ldid_mhl_a(s: CpuView, inc: bool) -> CpuView {
    let hl = spec_get16(s, Reg16::HL);
    spec_set16(spec_store(s, hl, s.regs.a), Reg16::HL, spec_hl_step(hl, inc))
}

/// Load `[HL]` into `A` then increment (`inc`) or decrement `HL`
#[verifier::opaque]
pub open spec fn spec_ldid_a_mhl(s: CpuView, inc: bool) -> CpuView {
    let hl = spec_get16(s, Reg16::HL);
    spec_set16(spec_set8(s, Reg8::A, spec_read(s.inter, hl)), Reg16::HL, spec_hl_step(hl, inc))
}

/// Store `A` at `0xff00` plus an immediate byte
#[verifier::opaque]
pub open spec fn spec_ldh_mn_a(s: CpuView) -> CpuView {
    let (s1, n) = spec_next_byte(s);
    spec_store(s1, (0xff00 + n) as u16, s.regs.a)
}

/// Store `A` at `0xff00` plus `C`
#[verifier::opaque]
pub open spec fn spec_ldh_mc_a(s: CpuView) -> CpuView {
    spec_store(s, (0xff00 + s.regs.c) as u16, s.regs.a)
}

/// Load the byte at `0xff00` plus an immediate byte into `A`
#[verifier::opaque]
pub open spec fn spec_ldh_a_mn(s: CpuView) -> CpuView {
    let (s1, n) = spec_next_byte(s);
    spec_set8(s1, Reg8::A, spec_read(s1.inter, (0xff00 + n) as u16))
}

/// Load the byte at `0xff00` plus `C` into `A`
#[verifier::opaque]
pub open spec fn spec_ldh_a_mc(s: CpuView) -> CpuView {
    spec_set8(s, Reg8::A, spec_read(s.inter, (0xff00 + s.regs.c) as u16))
}

/// Push 16 bit register `rr` on the stack
#[verifier::opaque]
pub open spec fn spec_push_rr(s: CpuView, rr: Reg16) -> CpuView {
    spec_push_word(s, spec_get16(s, rr))
}

/// Pop 16 bit register `rr` from the stack
#[verifier::opaque]
pub open spec fn spec_pop_rr(s: CpuView, rr: Reg16) -> CpuView {
    let (s1, w) = spec_pop_word(s);
    spec_set16(s1, rr, w)
}

/// Jump to an immediate address
#[verifier::opaque]
pub open spec fn spec_jp_nn(s: CpuView) -> CpuView {
    let (s1, nn) = spec_next_word(s);
    with_pc(s1, nn)
}

/// Jump to the address in `HL`
#[verifier::opaque]
pub open spec fn spec_jp_hl(s: CpuView) -> CpuView {
    with_pc(s, spec_get16(s, Reg16::HL))
}

/// Jump to an immediate address if `cc` holds
#[verifier::opaque]
pub open spec fn spec_jp_cc_nn(s: CpuView, cc: Cond) -> CpuView {
    let (s1, nn) = spec_next_word(s);
    if spec_cond(s.flags, cc) {
        with_pc(s1, nn)
    } else {
        s1
    }
}

/// Target of a relative jump of the signed byte `n` from `pc`
pub open spec fn spec_jr_target(pc: u16, n: u8) -> u16 {
    pc.wrapping_add_signed((n as i8) as i16)
}

/// Relative jump
#[verifier::opaque]
pub open spec fn spec_jr_sn(s: CpuView) -> CpuView {
    let (s1, n) = spec_next_byte(s);
    with_pc(s1, spec_jr_target(s1.regs.pc, n))
}

/// Relative jump if `cc` holds, which takes one more machine cycle
#[verifier::opaque]
pub open spec fn spec_jr_cc_sn(s: CpuView, cc: Cond) -> CpuView {
    let (s1, n) = spec_next_byte(s);
    if spec_cond(s.flags, cc) {
        spec_add_delay(with_pc(s1, spec_jr_target(s1.regs.pc, n)), 1)
    } else {
        s1
    }
}

/// Push the return address and jump to an immediate address
#[verifier::opaque]
pub open spec fn spec_call_nn(s: CpuView) -> CpuView {
    let (s1, nn) = spec_next_word(s);
    with_pc(spec_push_word(s1, s1.regs.pc), nn)
}

/// Call an immediate address if `cc` holds, which takes three more
/// machine cycles
#[verifier::opaque]
pub open spec fn spec_call_cc_nn(s: CpuView, cc: Cond) -> CpuView {
    let (s1, nn) = spec_next_word(s);
    if spec_cond(s.flags, cc) {
        spec_add_delay(with_pc(spec_push_word(s1, s1.regs.pc), nn), 3)
    } else {
        s1
    }
}

/// Pop the return address and jump to it
pub open spec fn spec_ret_base(s: CpuView) -> CpuView {
    let (s1, w) = spec_pop_word(s);
    with_pc(s1, w)
}

/// Return
#[verifier::opaque]
pub open spec fn spec_ret(s: CpuView) -> CpuView {
    spec_ret_base(s)
}

/// Return and enable interrupts
#[verifier::opaque]
pub open spec fn spec_reti(s: CpuView) -> CpuView {
    CpuView { iten: true, iten_enable_next: true, ..spec_ret_base(s) }
}

/// Return if `cc` holds, which takes three more machine cycles
#[verifier::opaque]
pub open spec fn spec_ret_cc(s: CpuView, cc: Cond) -> CpuView {
    if spec_cond(s.flags, cc) {
        spec_add_delay(spec_ret_base(s), 3)
    } else {
        s
    }
}

/// Push the return address and jump to `addr`
#[verifier::opaque]
pub open spec fn spec_rst(s: CpuView, addr: u16) -> CpuView {
    with_pc(spec_push_word(s, s.regs.pc), addr)
}

/// Disable interrupts
#[verifier::opaque]
pub open spec fn spec_di(s: CpuView) -> CpuView {
    CpuView { iten: false, iten_enable_next: false, ..s }
}

/// Enable interrupts
#[verifier::opaque]
pub open spec fn spec_ei(s: CpuView) -> CpuView {
    CpuView { iten: true, iten_enable_next: true, ..s }
}

/// Halt until an interrupt
#[verifier::opaque]
pub open spec fn spec_halt(s: CpuView) -> CpuView {
    CpuView { halted: true, ..s }
}

/// Stop: skip the second byte of the opcode
#[verifier::opaque]
pub open spec fn spec_stop(s: CpuView) -> CpuView {
    spec_next_byte(s).0
}

/// For multi-byte instructions: return the byte at `pc` and increment
/// `pc`
pub fn next_byte(cpu: &mut Cpu) -> (b: u8)
    requires
        old(cpu).wf(),
    ensures
        final(cpu)@.instruction_delay == old(cpu)@.instruction_delay,
        final(cpu).wf(),
        (final(cpu)@, b) === spec_next_byte(old(cpu)@),
{
    proof {
        reveal(spec_next_byte);
    }
    let pc = cpu.pc();
    let b = cpu.fetch_byte(pc);
    cpu.set_pc(pc.wrapping_add(1));
    b
}

/// For multi-byte instructions: return the word at `pc` and increment
/// `pc` twice
pub fn next_word(cpu: &mut Cpu) -> (w: u16)
    requires
        old(cpu).wf(),
    ensures
        final(cpu)@.instruction_delay == old(cpu)@.instruction_delay,
        final(cpu).wf(),
        (final(cpu)@, w) === spec_next_word(old(cpu)@),
{
    proof {
        reveal(spec_next_word);
    }
    let b1 = next_byte(cpu) as u16;
    let b2 = next_byte(cpu) as u16;
    b2 * 256 + b1
}

/// Compute operation `op` on `x` and `y` and update the CPU flags
fn alu_and_set_flags(cpu: &mut Cpu, op: AluOp, x: u8, y: u8) -> (r: u8)
    requires
        old(cpu).wf(),
    ensures
        final(cpu).wf(),
        r == spec_alu(op, x, y, old(cpu)@.flags.c).0,
        final(cpu)@ === with_flags(old(cpu)@, spec_alu(op, x, y, old(cpu)@.flags.c).1),
{
    let carry: u16 = if cpu.carry() {
        1
    } else {
        0
    };
    let xw = x as u16;
    let yw = y as u16;
    let (rb, f) = match op {
        AluOp::Add => {
            let r = xw + yw;
            ((r % 256) as u8, Flags { z: r % 256 == 0, n: false, h: xw % 16 + yw % 16 >= 16, c: r >= 256 })
        },
        AluOp::Adc => {
            let r = xw + yw + carry;
            (
                (r % 256) as u8,
                Flags { z: r % 256 == 0, n: false, h: xw % 16 + yw % 16 + carry >= 16, c: r >= 256 },
            )
        },
        AluOp::Sub | AluOp::Cp => {
            let r = xw + 256 - yw;
            ((r % 256) as u8, Flags { z: xw == yw, n: true, h: xw % 16 < yw % 16, c: xw < yw })
        },
        AluOp::Sbc => {
            let r = xw + 512 - yw - carry;
            (
                (r % 256) as u8,
                Flags { z: r % 256 == 0, n: true, h: xw % 16 < yw % 16 + carry, c: xw < yw + carry },
            )
        },
        AluOp::And => (x & y, Flags { z: x & y == 0, n: false, h: true, c: false }),
        AluOp::Xor => (x ^ y, Flags { z: x ^ y == 0, n: false, h: false, c: false }),
        AluOp::Or => (x | y, Flags { z: x | y == 0, n: false, h: false, c: false }),
    };
    cpu.set_flags(f);
    rb
}

/// Helper function to add two `u16` and update the CPU flags: the
/// zero flag is untouched
fn add_word_and_set_flags(cpu: &mut Cpu, x: u16, y: u16) -> (r: u16)
    requires
        old(cpu).wf(),
    ensures
        final(cpu).wf(),
        r == ((x + y) % 0x10000) as u16,
        final(cpu)@ === with_flags(
            old(cpu)@,
            Flags { z: old(cpu)@.flags.z, n: false, h: x % 4096 + y % 4096 >= 4096, c: x + y >= 0x10000 },
        ),
{
    let r = x as u32 + y as u32;
    let z = cpu.zero();
    cpu.set_flags(Flags { z: z, n: false, h: x % 4096 + y % 4096 >= 4096, c: r >= 0x10000 });
    (r % 0x10000) as u16
}

/// `SP` plus the signed byte `n`, and the flags of that sum
fn sp_plus_n(cpu: &Cpu, sp: u16, n: u8) -> (r: (u16, Flags))
    ensures
        r == (spec_sp_plus(sp, n), spec_sp_n_flags(sp, n, cpu@.flags)),
{
    let r = sp.wrapping_add_signed((n as i8) as i16);
    (r, Flags { z: cpu.zero(), n: false, h: sp % 16 + (n % 16) as u16 >= 16, c: sp % 256 + n as u16 >= 256 })
}

/// Target of a relative jump of the signed byte `n` from `pc`
fn jr_target(pc: u16, n: u8) -> (r: u16)
    ensures
        r == spec_jr_target(pc, n),
{
    pc.wrapping_add_signed((n as i8) as i16)
}

/// Helper function for RST instructions
fn rst(cpu: &mut Cpu, addr: u16)
    requires
        old(cpu).wf(),
    ensures
        final(cpu).wf(),
        final(cpu)@ === spec_rst(old(cpu)@, addr),
{
    proof {
        reveal(spec_rst);
    }
    let pc = cpu.pc();
    cpu.push_word(pc);
    cpu.set_pc(addr);
}

/// No operation
fn nop(cpu: &mut Cpu)
    requires
        old(cpu).wf(),
    ensures
        final(cpu).wf(),
        final(cpu)@ === spec_nop(old(cpu)@),
{
    proof {
        reveal(spec_nop);
    }
}

/// Undefined opcode. Stall the CPU.
fn undefined(cpu: &mut Cpu)
    requires
        old(cpu).wf(),
    ensures
        final(cpu).wf(),
        final(cpu)@ === spec_undefined(old(cpu)@),
{
    proof {
        reveal(spec_undefined);
    }
    let pc = cpu.pc().wrapping_sub(1);
    cpu.set_pc(pc);
}

/// Rotate `A`: the carry gets the rotated bit, the other flags are
/// cleared (the flags are described wrong in the CPU manual)
fn rotate_a(cpu: &mut Cpu, op: RotA)
    requires
        old(cpu).wf(),
    ensures
        final(cpu).wf(),
        final(cpu)@ === spec_rot_a(old(cpu)@, op),
{
    proof {
        reveal(spec_rot_a);
    }
    let a = cpu.a();
    let old: u8 = if cpu.carry() {
        1
    } else {
        0
    };
    let (r, c): (u8, bool) = match op {
        RotA::Rlca => ((a % 128) * 2 + a / 128, a >= 128),
        RotA::Rla => ((a % 128) * 2 + old, a >= 128),
        RotA::Rrca => (a / 2 + (a % 2) * 128, a % 2 == 1),
        RotA::Rra => (a / 2 + old * 128, a % 2 == 1),
    };
    cpu.set_flags(Flags { z: false, n: false, h: false, c: c });
    cpu.set_a(r);
}

/// Complement `A`
fn cpl(cpu: &mut Cpu)
    requires
        old(cpu).wf(),
    ensures
        final(cpu).wf(),
        final(cpu)@ === spec_cpl(old(cpu)@),
{
    proof {
        reveal(spec_cpl);
    }
    let a = cpu.a();
    cpu.set_a(255 - a);
    cpu.set_substract(true);
    cpu.set_halfcarry(true);
}

/// Complement carry flag
fn ccf(cpu: &mut Cpu)
    requires
        old(cpu).wf(),
    ensures
        final(cpu).wf(),
        final(cpu)@ === spec_ccf(old(cpu)@),
{
    proof {
        reveal(spec_ccf);
    }
    let carry = cpu.carry();
    cpu.set_carry(!carry);
    cpu.set_substract(false);
    cpu.set_halfcarry(false);
}

/// Set carry flag
fn scf(cpu: &mut Cpu)
    requires
        old(cpu).wf(),
    ensures
        final(cpu).wf(),
        final(cpu)@ === spec_scf(old(cpu)@),
{
    proof {
        reveal(spec_scf);
    }
    cpu.set_carry(true);
    cpu.set_substract(false);
    cpu.set_halfcarry(false);
}

/// Load register `r` into register `d`
fn ld_r_r(cpu: &mut Cpu, d: Reg8, r: Reg8)
    requires
        old(cpu).wf(),
    ensures
        final(cpu).wf(),
        final(cpu)@ === spec_ld_r_r(old(cpu)@, d, r),
{
    proof {
        reveal(spec_ld_r_r);
    }
    let v = cpu.get8(r);
    cpu.set8(d, v);
}

/// Load 8 bit immediate value into register `d`
fn ld_r_n(cpu: &mut Cpu, d: Reg8)
    requires
        old(cpu).wf(),
    ensures
        final(cpu).wf(),
        final(cpu)@ === spec_ld_r_n(old(cpu)@, d),
{
    proof {
        reveal(spec_ld_r_n);
    }
    let n = next_byte(cpu);
    cpu.set8(d, n);
}

/// Load the byte at the address in `rr` into register `d`
fn ld_r_mrr(cpu: &mut Cpu, d: Reg8, rr: Reg16)
    requires
        old(cpu).wf(),
    ensures
        final(cpu).wf(),
        final(cpu)@ === spec_ld_r_mrr(old(cpu)@, d, rr),
{
    proof {
        reveal(spec_ld_r_mrr);
    }
    let addr = cpu.get16(rr);
    let v = cpu.fetch_byte(addr);
    cpu.set8(d, v);
}

/// Store register `r` at the address in `rr`
fn ld_mrr_r(cpu: &mut Cpu, rr: Reg16, r: Reg8)
    requires
        old(cpu).wf(),
    ensures
        final(cpu).wf(),
        final(cpu)@ === spec_ld_mrr_r(old(cpu)@, rr, r),
{
    proof {
        reveal(spec_ld_mrr_r);
    }
    let v = cpu.get8(r);
    let addr = cpu.get16(rr);
    cpu.store_byte(addr, v);
}

/// Store `N` into `[HL]`
fn ld_mhl_n(cpu: &mut Cpu)
    requires
        old(cpu).wf(),
    ensures
        final(cpu).wf(),
        final(cpu)@ === spec_ld_mhl_n(old(cpu)@),
{
    proof {
        reveal(spec_ld_mhl_n);
    }
    let n = next_byte(cpu);
    let hl = cpu.hl();
    cpu.store_byte(hl, n);
}

/// Load `[NN]` into `A`
fn ld_a_mnn(cpu: &mut Cpu)
    requires
        old(cpu).wf(),
    ensures
        final(cpu).wf(),
        final(cpu)@ === spec_ld_a_mnn(old(cpu)@),
{
    proof {
        reveal(spec_ld_a_mnn);
    }
    let n = next_word(cpu);
    let v = cpu.fetch_byte(n);
    cpu.set_a(v);
}

/// Store `A` into `[NN]`
fn ld_mnn_a(cpu: &mut Cpu)
    requires
        old(cpu).wf(),
    ensures
        final(cpu).wf(),
        final(cpu)@ === spec_ld_mnn_a(old(cpu)@),
{
    proof {
        reveal(spec_ld_mnn_a);
    }
    let a = cpu.a();
    let n = next_word(cpu);
    cpu.store_byte(n, a);
}

/// Store `SP` into `[NN]`, low byte first
fn ld_mnn_sp(cpu: &mut Cpu)
    requires
        old(cpu).wf(),
    ensures
        final(cpu).wf(),
        final(cpu)@ === spec_ld_mnn_sp(old(cpu)@),
{
    proof {
        reveal(spec_ld_mnn_sp);
    }
    let sp = cpu.sp();
    let n = next_word(cpu);
    cpu.store_byte(n, (sp % 256) as u8);
    cpu.store_byte(n.wrapping_add(1), (sp / 256) as u8);
}

/// Load 16bits immediate value into `rr`
fn ld_rr_nn(cpu: &mut Cpu, rr: Reg16)
    requires
        old(cpu).wf(),
    ensures
        final(cpu).wf(),
        final(cpu)@ === spec_ld_rr_nn(old(cpu)@, rr),
{
    proof {
        reveal(spec_ld_rr_nn);
    }
    let n = next_word(cpu);
    cpu.set16(rr, n);
}

/// Load `HL` into `SP`
fn ld_sp_hl(cpu: &mut Cpu)
    requires
        old(cpu).wf(),
    ensures
        final(cpu).wf(),
        final(cpu)@ === spec_ld_sp_hl(old(cpu)@),
{
    proof {
        reveal(spec_ld_sp_hl);
    }
    let hl = cpu.hl();
    cpu.set_sp(hl);
}

/// Load `SP + N` into `HL`
fn ld_hl_sp_sn(cpu: &mut Cpu)
    requires
        old(cpu).wf(),
    ensures
        final(cpu).wf(),
        final(cpu)@ === spec_ld_hl_sp_sn(old(cpu)@),
{
    proof {
        reveal(spec_ld_hl_sp_sn);
    }
    let sp = cpu.sp();
    let n = next_byte(cpu);
    let (r, f) = sp_plus_n(cpu, sp, n);
    cpu.set_flags(f);
    cpu.set_hl(r);
}

/// Add signed 8bit immediate value to `SP`
fn add_sp_sn(cpu: &mut Cpu)
    requires
        old(cpu).wf(),
    ensures
        final(cpu).wf(),
        final(cpu)@ === spec_add_sp_sn(old(cpu)@),
{
    proof {
        reveal(spec_add_sp_sn);
    }
    let sp = cpu.sp();
    let n = next_byte(cpu);
    let (r, f) = sp_plus_n(cpu, sp, n);
    cpu.set_flags(f);
    cpu.set_sp(r);
}

/// Store `A` into `[HL]` and increment (`inc`) or decrement `HL`
fn ldid_mhl_a(cpu: &mut Cpu, inc: bool)
    requires
        old(cpu).wf(),
    ensures
        final(cpu).wf(),
        final(cpu)@ === spec_ldid_mhl_a(old(cpu)@, inc),
{
    proof {
        reveal(spec_ldid_mhl_a);
    }
    let hl = cpu.hl();
    let a = cpu.a();
    cpu.store_byte(hl, a);
    let next = if inc {
        hl.wrapping_add(1)
    } else {
        hl.wrapping_sub(1)
    };
    cpu.set_hl(next);
}

/// Load `[HL]` into `A` and increment (`inc`) or decrement `HL`
fn ldid_a_mhl(cpu: &mut Cpu, inc: bool)
    requires
        old(cpu).wf(),
    ensures
        final(cpu).wf(),
        final(cpu)@ === spec_ldid_a_mhl(old(cpu)@, inc),
{
    proof {
        reveal(spec_ldid_a_mhl);
    }
    let hl = cpu.hl();
    let a = cpu.fetch_byte(hl);
    cpu.set_a(a);
    let next = if inc {
        hl.wrapping_add(1)
    } else {
        hl.wrapping_sub(1)
    };
    cpu.set_hl(next);
}

/// Store `A` into `[0xff00 + N]`
fn ldh_mn_a(cpu: &mut Cpu)
    requires
        old(cpu).wf(),
    ensures
        final(cpu).wf(),
        final(cpu)@ === spec_ldh_mn_a(old(cpu)@),
{
    proof {
        reveal(spec_ldh_mn_a);
    }
    let a = cpu.a();
    let n = next_byte(cpu) as u16;
    cpu.store_byte(0xff00 + n, a);
}

/// Store `A` into `[0xff00 + C]`
fn ldh_mc_a(cpu: &mut Cpu)
    requires
        old(cpu).wf(),
    ensures
        final(cpu).wf(),
        final(cpu)@ === spec_ldh_mc_a(old(cpu)@),
{
    proof {
        reveal(spec_ldh_mc_a);
    }
    let a = cpu.a();
    let c = cpu.c() as u16;
    cpu.store_byte(0xff00 + c, a);
}

/// Load `[0xff00 + N]` into `A`
fn ldh_a_mn(cpu: &mut Cpu)
    requires
        old(cpu).wf(),
    ensures
        final(cpu).wf(),
        final(cpu)@ === spec_ldh_a_mn(old(cpu)@),
{
    proof {
        reveal(spec_ldh_a_mn);
    }
    let n = next_byte(cpu) as u16;
    let v = cpu.fetch_byte(0xff00 + n);
    cpu.set_a(v);
}

/// Load `[0xff00 + C]` into `A`
fn ldh_a_mc(cpu: &mut Cpu)
    requires
        old(cpu).wf(),
    ensures
        final(cpu).wf(),
        final(cpu)@ === spec_ldh_a_mc(old(cpu)@),
{
    proof {
        reveal(spec_ldh_a_mc);
    }
    let c = cpu.c() as u16;
    let v = cpu.fetch_byte(0xff00 + c);
    cpu.set_a(v);
}

/// Increment register `r`
fn inc_r(cpu: &mut Cpu, r: Reg8)
    requires
        old(cpu).wf(),
    ensures
        final(cpu).wf(),
        final(cpu)@ === spec_inc_r(old(cpu)@, r),
{
    proof {
        reveal(spec_inc_r);
    }
    let v = cpu.get8(r);
    let res: u8 = if v == 255 {
        0
    } else {
        v + 1
    };
    let c = cpu.carry();
    cpu.set_flags(Flags { z: res == 0, n: false, h: v % 16 == 15, c: c });
    cpu.set8(r, res);
}

/// Decrement register `r`
fn dec_r(cpu: &mut Cpu, r: Reg8)
    requires
        old(cpu).wf(),
    ensures
        final(cpu).wf(),
        final(cpu)@ === spec_dec_r(old(cpu)@, r),
{
    proof {
        reveal(spec_dec_r);
    }
    let v = cpu.get8(r);
    let res: u8 = if v == 0 {
        255
    } else {
        v - 1
    };
    let c = cpu.carry();
    // bit will carry over if the low nibble is 0
    cpu.set_flags(Flags { z: res == 0, n: true, h: v % 16 == 0, c: c });
    cpu.set8(r, res);
}

/// Increment `[HL]`
fn inc_mhl(cpu: &mut Cpu)
    requires
        old(cpu).wf(),
    ensures
        final(cpu).wf(),
        final(cpu)@ === spec_inc_mhl(old(cpu)@),
{
    proof {
        reveal(spec_inc_mhl);
    }
    let hl = cpu.hl();
    let v = cpu.fetch_byte(hl);
    let res: u8 = if v == 255 {
        0
    } else {
        v + 1
    };
    let c = cpu.carry();
    cpu.set_flags(Flags { z: res == 0, n: false, h: v % 16 == 15, c: c });
    cpu.store_byte(hl, res);
}

/// Decrement `[HL]`
fn dec_mhl(cpu: &mut Cpu)
    requires
        old(cpu).wf(),
    ensures
        final(cpu).wf(),
        final(cpu)@ === spec_dec_mhl(old(cpu)@),
{
    proof {
        reveal(spec_dec_mhl);
    }
    let hl = cpu.hl();
    let v = cpu.fetch_byte(hl);
    let res: u8 = if v == 0 {
        255
    } else {
        v - 1
    };
    let c = cpu.carry();
    // bit will carry over if the low nibble is 0
    cpu.set_flags(Flags { z: res == 0, n: true, h: v % 16 == 0, c: c });
    cpu.store_byte(hl, res);
}

/// Increment 16 bit register `rr`
fn inc_rr(cpu: &mut Cpu, rr: Reg16)
    requires
        old(cpu).wf(),
    ensures
        final(cpu).wf(),
        final(cpu)@ === spec_inc_rr(old(cpu)@, rr),
{
    proof {
        reveal(spec_inc_rr);
    }
    let v = cpu.get16(rr);
    cpu.set16(rr, v.wrapping_add(1));
}

/// Decrement 16 bit register `rr`
fn dec_rr(cpu: &mut Cpu, rr: Reg16)
    requires
        old(cpu).wf(),
    ensures
        final(cpu).wf(),
        final(cpu)@ === spec_dec_rr(old(cpu)@, rr),
{
    proof {
        reveal(spec_dec_rr);
    }
    let v = cpu.get16(rr);
    cpu.set16(rr, v.wrapping_sub(1));
}

/// Store the result of operation `op` on `A` and `v` in `A`, or only
/// set the flags for a comparison
fn alu_apply(cpu: &mut Cpu, op: AluOp, v: u8)
    requires
        old(cpu).wf(),
    ensures
        final(cpu).wf(),
        final(cpu)@ === spec_alu_apply(old(cpu)@, op, v),
{
    let a = cpu.a();
    let r = alu_and_set_flags(cpu, op, a, v);
    if op != AluOp::Cp {
        cpu.set_a(r);
    }
}

/// Operation `op` on `A` and register `r`
fn alu_r(cpu: &mut Cpu, op: AluOp, r: Reg8)
    requires
        old(cpu).wf(),
    ensures
        final(cpu).wf(),
        final(cpu)@ === spec_alu_r(old(cpu)@, op, r),
{
    proof {
        reveal(spec_alu_r);
    }
    let v = cpu.get8(r);
    alu_apply(cpu, op, v);
}

/// Operation `op` on `A` and `[HL]`
fn alu_mhl(cpu: &mut Cpu, op: AluOp)
    requires
        old(cpu).wf(),
    ensures
        final(cpu).wf(),
        final(cpu)@ === spec_alu_mhl(old(cpu)@, op),
{
    proof {
        reveal(spec_alu_mhl);
    }
    let hl = cpu.hl();
    let v = cpu.fetch_byte(hl);
    alu_apply(cpu, op, v);
}

/// Operation `op` on `A` and an immediate value
fn alu_n(cpu: &mut Cpu, op: AluOp)
    requires
        old(cpu).wf(),
    ensures
        final(cpu).wf(),
        final(cpu)@ === spec_alu_n(old(cpu)@, op),
{
    proof {
        reveal(spec_alu_n);
    }
    let v = next_byte(cpu);
    alu_apply(cpu, op, v);
}

/// Add 16 bit register `rr` to `HL`
fn add_hl_rr(cpu: &mut Cpu, rr: Reg16)
    requires
        old(cpu).wf(),
    ensures
        final(cpu).wf(),
        final(cpu)@ === spec_add_hl_rr(old(cpu)@, rr),
{
    proof {
        reveal(spec_add_hl_rr);
    }
    let hl = cpu.hl();
    let v = cpu.get16(rr);
    let r = add_word_and_set_flags(cpu, hl, v);
    cpu.set_hl(r);
}

/// Push 16 bit register `rr` on the stack
fn push_rr(cpu: &mut Cpu, rr: Reg16)
    requires
        old(cpu).wf(),
    ensures
        final(cpu).wf(),
        final(cpu)@ === spec_push_rr(old(cpu)@, rr),
{
    proof {
        reveal(spec_push_rr);
    }
    let v = cpu.get16(rr);
    cpu.push_word(v);
}

/// Pop 16 bit register `rr` from the stack
fn pop_rr(cpu: &mut Cpu, rr: Reg16)
    requires
        old(cpu).wf(),
    ensures
        final(cpu).wf(),
        final(cpu)@ === spec_pop_rr(old(cpu)@, rr),
{
    proof {
        reveal(spec_pop_rr);
    }
    let n = cpu.pop_word();
    cpu.set16(rr, n);
}

/// Unconditional jump to absolute address
fn jp_nn(cpu: &mut Cpu)
    requires
        old(cpu).wf(),
    ensures
        final(cpu).wf(),
        final(cpu)@ === spec_jp_nn(old(cpu)@),
{
    proof {
        reveal(spec_jp_nn);
    }
    let addr = next_word(cpu);
    cpu.set_pc(addr);
}

/// Unconditional jump to address in `HL`
fn jp_hl(cpu: &mut Cpu)
    requires
        old(cpu).wf(),
    ensures
        final(cpu).wf(),
        final(cpu)@ === spec_jp_hl(old(cpu)@),
{
    proof {
        reveal(spec_jp_hl);
    }
    let hl = cpu.hl();
    cpu.set_pc(hl);
}

/// `true` if condition `cc` holds
fn condition(cpu: &Cpu, cc: Cond) -> (r: bool)
    ensures
        r == spec_cond(cpu@.flags, cc),
{
    match cc {
        Cond::NZ => !cpu.zero(),
        Cond::Z => cpu.zero(),
        Cond::NC => !cpu.carry(),
        Cond::C => cpu.carry(),
    }
}

/// Jump to absolute address if `cc` holds
fn jp_cc_nn(cpu: &mut Cpu, cc: Cond)
    requires
        old(cpu).wf(),
    ensures
        final(cpu).wf(),
        final(cpu)@ === spec_jp_cc_nn(old(cpu)@, cc),
{
    proof {
        reveal(spec_jp_cc_nn);
    }
    let taken = condition(cpu, cc);
    let addr = next_word(cpu);
    if taken {
        cpu.set_pc(addr);
    }
}

/// Unconditional jump to relative address
fn jr_sn(cpu: &mut Cpu)
    requires
        old(cpu).wf(),
    ensures
        final(cpu).wf(),
        final(cpu)@ === spec_jr_sn(old(cpu)@),
{
    proof {
        reveal(spec_jr_sn);
    }
    let off = next_byte(cpu);
    let pc = cpu.pc();
    cpu.set_pc(jr_target(pc, off));
}

/// Taken relative jump: one more machine cycle
fn jr_taken(cpu: &mut Cpu, off: u8)
    requires
        old(cpu).wf(),
        old(cpu)@.instruction_delay <= 40,
    ensures
        final(cpu).wf(),
        final(cpu)@ === spec_add_delay(with_pc(old(cpu)@, spec_jr_target(old(cpu)@.regs.pc, off)), 1),
{
    let pc = cpu.pc();
    cpu.set_pc(jr_target(pc, off));
    cpu.additional_delay(1);
}

/// Jump to relative address if `cc` holds
fn jr_cc_sn(cpu: &mut Cpu, cc: Cond)
    requires
        old(cpu).wf(),
        old(cpu)@.instruction_delay <= 40,
    ensures
        final(cpu).wf(),
        final(cpu)@ === spec_jr_cc_sn(old(cpu)@, cc),
{
    proof {
        reveal(spec_jr_cc_sn);
    }
    let taken = condition(cpu, cc);
    let off = next_byte(cpu);
    if taken {
        jr_taken(cpu, off);
    }
}

/// Push return address on stack and jump to immediate address
fn call_nn(cpu: &mut Cpu)
    requires
        old(cpu).wf(),
    ensures
        final(cpu).wf(),
        final(cpu)@ === spec_call_nn(old(cpu)@),
{
    proof {
        reveal(spec_call_nn);
    }
    let addr = next_word(cpu);
    let pc = cpu.pc();
    cpu.push_word(pc);
    cpu.set_pc(addr);
}

/// Taken call: three more machine cycles
fn call_taken(cpu: &mut Cpu, addr: u16)
    requires
        old(cpu).wf(),
        old(cpu)@.instruction_delay <= 40,
    ensures
        final(cpu).wf(),
        final(cpu)@ === spec_add_delay(with_pc(spec_push_word(old(cpu)@, old(cpu)@.regs.pc), addr), 3),
{
    let pc = cpu.pc();
    cpu.push_word(pc);
    cpu.set_pc(addr);
    cpu.additional_delay(3);
}

/// Push return address on stack and jump to immediate address if
/// `cc` holds
fn call_cc_nn(cpu: &mut Cpu, cc: Cond)
    requires
        old(cpu).wf(),
        old(cpu)@.instruction_delay <= 40,
    ensures
        final(cpu).wf(),
        final(cpu)@ === spec_call_cc_nn(old(cpu)@, cc),
{
    proof {
        reveal(spec_call_cc_nn);
    }
    let taken = condition(cpu, cc);
    let addr = next_word(cpu);
    if taken {
        call_taken(cpu, addr);
    }
}

/// Pop return address from stack and jump to it
fn ret(cpu: &mut Cpu)
    requires
        old(cpu).wf(),
    ensures
        final(cpu).wf(),
        final(cpu)@ === spec_ret(old(cpu)@),
{
    proof {
        reveal(spec_ret);
    }
    let addr = cpu.pop_word();
    cpu.set_pc(addr);
}

/// Pop return address from stack and jump to it then enable
/// interrupts.
fn reti(cpu: &mut Cpu)
    requires
        old(cpu).wf(),
    ensures
        final(cpu).wf(),
        final(cpu)@ === spec_reti(old(cpu)@),
{
    proof {
        reveal(spec_reti);
    }
    let addr = cpu.pop_word();
    cpu.set_pc(addr);
    cpu.enable_interrupts();
}

/// Taken return: three more machine cycles
fn ret_taken(cpu: &mut Cpu)
    requires
        old(cpu).wf(),
        old(cpu)@.instruction_delay <= 40,
    ensures
        final(cpu).wf(),
        final(cpu)@ === spec_add_delay(spec_ret_base(old(cpu)@), 3),
{
    let addr = cpu.pop_word();
    cpu.set_pc(addr);
    cpu.additional_delay(3);
}

/// If `cc` holds pop return address from stack and jump to it
fn ret_cc(cpu: &mut Cpu, cc: Cond)
    requires
        old(cpu).wf(),
        old(cpu)@.instruction_delay <= 40,
    ensures
        final(cpu).wf(),
        final(cpu)@ === spec_ret_cc(old(cpu)@, cc),
{
    proof {
        reveal(spec_ret_cc);
    }
    if condition(cpu, cc) {
        ret_taken(cpu);
    }
}

/// Disable interrupts
fn di(cpu: &mut Cpu)
    requires
        old(cpu).wf(),
    ensures
        final(cpu).wf(),
        final(cpu)@ === spec_di(old(cpu)@),
{
    proof {
        reveal(spec_di);
    }
    cpu.disable_interrupts();
}

/// Enable interrupts
fn ei(cpu: &mut Cpu)
    requires
        old(cpu).wf(),
    ensures
        final(cpu).wf(),
        final(cpu)@ === spec_ei(old(cpu)@),
{
    proof {
        reveal(spec_ei);
    }
    // This is actually not accurate: the interrupt should only be
    // re-enabled at the beginning of the next instruction.
    cpu.enable_interrupts();
}

/// Halt and wait for interrupt
fn halt(cpu: &mut Cpu)
    requires
        old(cpu).wf(),
    ensures
        final(cpu).wf(),
        final(cpu)@ === spec_halt(old(cpu)@),
{
    proof {
        reveal(spec_halt);
    }
    cpu.halt();
}

/// Stop: the opcode takes two bytes, the second one is skipped
fn stop(cpu: &mut Cpu)
    requires
        old(cpu).wf(),
    ensures
        final(cpu).wf(),
        final(cpu)@ === spec_stop(old(cpu)@),
{
    proof {
        reveal(spec_stop);
    }
    let _ = next_byte(cpu);
}

/// Instructions that control the CPU or work on `A` and the flags alone
#[derive(Clone, Copy, PartialEq, Eq, Structural, Debug)]
pub enum ControlInstr {
    Nop,
    Undefined,
    RotA(RotA),
    Cpl,
    Ccf,
    Scf,
    Di,
    Ei,
    Halt,
    Stop,
    Unimplemented(u8),
}

/// 8 bit loads and stores
#[derive(Clone, Copy, PartialEq, Eq, Structural, Debug)]
pub enum Load8Instr {
    LdRR(Reg8, Reg8),
    LdRN(Reg8),
    LdRMrr(Reg8, Reg16),
    LdMrrR(Reg16, Reg8),
    LdMhlN,
    LdAMnn,
    LdMnnA,
    LdidMhlA(bool),
    LdidAMhl(bool),
    LdhMnA,
    LdhMcA,
    LdhAMn,
    LdhAMc,
}

/// 16 bit loads, stack pushes and pops
#[derive(Clone, Copy, PartialEq, Eq, Structural, Debug)]
pub enum Load16Instr {
    LdMnnSp,
    LdRrNn(Reg16),
    LdSpHl,
    LdHlSpSn,
    PushRr(Reg16),
    PopRr(Reg16),
}

/// 8 bit arithmetic and logic
#[derive(Clone, Copy, PartialEq, Eq, Structural, Debug)]
pub enum Arith8Instr {
    IncR(Reg8),
    DecR(Reg8),
    IncMhl,
    DecMhl,
    AluR(AluOp, Reg8),
    AluMhl(AluOp),
    AluN(AluOp),
}

/// 16 bit arithmetic
#[derive(Clone, Copy, PartialEq, Eq, Structural, Debug)]
pub enum Arith16Instr {
    IncRr(Reg16),
    DecRr(Reg16),
    AddHlRr(Reg16),
    AddSpSn,
}

/// Jumps, calls and returns
#[derive(Clone, Copy, PartialEq, Eq, Structural, Debug)]
pub enum JumpInstr {
    JpNn,
    JpHl,
    JpCcNn(Cond),
    JrSn,
    JrCcSn(Cond),
    CallNn,
    CallCcNn(Cond),
    Ret,
    Reti,
    RetCc(Cond),
    Rst(u16),
}

/// Shifts, rotations and single bit operations (0xCB opcodes)
#[derive(Clone, Copy, PartialEq, Eq, Structural, Debug)]
pub enum BitsInstr {
    ShiftR(ShiftOp, Reg8),
    ShiftMhl(ShiftOp),
    BitR(u8, Reg8),
    BitMhl(u8),
    ResR(u8, Reg8),
    ResMhl(u8),
    SetR(u8, Reg8),
    SetMhl(u8),
}

/// What an opcode does: the instruction and its operands
#[derive(Clone, Copy, PartialEq, Eq, Structural, Debug)]
pub enum Instr {
    Control(ControlInstr),
    Load8(Load8Instr),
    Load16(Load16Instr),
    Arith8(Arith8Instr),
    Arith16(Arith16Instr),
    Jump(JumpInstr),
    Bits(BitsInstr),
}

/// Operands in range: bit numbers below 8
pub open spec fn spec_instr_ok(i: Instr) -> bool {
    match i {
        Instr::Bits(BitsInstr::BitR(b, _)) => b < 8,
        Instr::Bits(BitsInstr::BitMhl(b)) => b < 8,
        Instr::Bits(BitsInstr::ResR(b, _)) => b < 8,
        Instr::Bits(BitsInstr::ResMhl(b)) => b < 8,
        Instr::Bits(BitsInstr::SetR(b, _)) => b < 8,
        Instr::Bits(BitsInstr::SetMhl(b)) => b < 8,
        _ => true,
    }
}

/// Effect of an instruction of the kind: instructions that control the CPU or work on `A` and the flags alone
#[verifier::opaque]
pub open spec fn spec_run_control(s: CpuView, i: ControlInstr) -> CpuView {
    match i {
        ControlInstr::Nop => spec_nop(s),
        ControlInstr::Undefined => spec_undefined(s),
        ControlInstr::RotA(op) => spec_rot_a(s, op),
        ControlInstr::Cpl => spec_cpl(s),
        ControlInstr::Ccf => spec_ccf(s),
        ControlInstr::Scf => spec_scf(s),
        ControlInstr::Di => spec_di(s),
        ControlInstr::Ei => spec_ei(s),
        ControlInstr::Halt => spec_halt(s),
        ControlInstr::Stop => spec_stop(s),
        ControlInstr::Unimplemented(_) => s,
    }
}

/// Effect of an instruction of the kind: 8 bit loads and stores
#[verifier::opaque]
pub open spec fn spec_run_load8(s: CpuView, i: Load8Instr) -> CpuView {
    match i {
        Load8Instr::LdRR(d, r) => spec_ld_r_r(s, d, r),
        Load8Instr::LdRN(d) => spec_ld_r_n(s, d),
        Load8Instr::LdRMrr(d, rr) => spec_ld_r_mrr(s, d, rr),
        Load8Instr::LdMrrR(rr, r) => spec_ld_mrr_r(s, rr, r),
        Load8Instr::LdMhlN => spec_ld_mhl_n(s),
        Load8Instr::LdAMnn => spec_ld_a_mnn(s),
        Load8Instr::LdMnnA => spec_ld_mnn_a(s),
        Load8Instr::LdidMhlA(inc) => spec_ldid_mhl_a(s, inc),
        Load8Instr::LdidAMhl(inc) => spec_ldid_a_mhl(s, inc),
        Load8Instr::LdhMnA => spec_ldh_mn_a(s),
        Load8Instr::LdhMcA => spec_ldh_mc_a(s),
        Load8Instr::LdhAMn => spec_ldh_a_mn(s),
        Load8Instr::LdhAMc => spec_ldh_a_mc(s),
    }
}

/// Effect of an instruction of the kind: 16 bit loads, stack pushes and pops
#[verifier::opaque]
pub open spec fn spec_run_load16(s: CpuView, i: Load16Instr) -> CpuView {
    match i {
        Load16Instr::LdMnnSp => spec_ld_mnn_sp(s),
        Load16Instr::LdRrNn(rr) => spec_ld_rr_nn(s, rr),
        Load16Instr::LdSpHl => spec_ld_sp_hl(s),
        Load16Instr::LdHlSpSn => spec_ld_hl_sp_sn(s),
        Load16Instr::PushRr(rr) => spec_push_rr(s, rr),
        Load16Instr::PopRr(rr) => spec_pop_rr(s, rr),
    }
}

/// Effect of an instruction of the kind: 8 bit arithmetic and logic
#[verifier::opaque]
pub open spec fn spec_run_arith8(s: CpuView, i: Arith8Instr) -> CpuView {
    match i {
        Arith8Instr::IncR(r) => spec_inc_r(s, r),
        Arith8Instr::DecR(r) => spec_dec_r(s, r),
        Arith8Instr::IncMhl => spec_inc_mhl(s),
        Arith8Instr::DecMhl => spec_dec_mhl(s),
        Arith8Instr::AluR(op, r) => spec_alu_r(s, op, r),
        Arith8Instr::AluMhl(op) => spec_alu_mhl(s, op),
        Arith8Instr::AluN(op) => spec_alu_n(s, op),
    }
}

/// Effect of an instruction of the kind: 16 bit arithmetic
#[verifier::opaque]
pub open spec fn spec_run_arith16(s: CpuView, i: Arith16Instr) -> CpuView {
    match i {
        Arith16Instr::IncRr(rr) => spec_inc_rr(s, rr),
        Arith16Instr::DecRr(rr) => spec_dec_rr(s, rr),
        Arith16Instr::AddHlRr(rr) => spec_add_hl_rr(s, rr),
        Arith16Instr::AddSpSn => spec_add_sp_sn(s),
    }
}

/// Effect of an instruction of the kind: jumps, calls and returns
#[verifier::opaque]
pub open spec fn spec_run_jump(s: CpuView, i: JumpInstr) -> CpuView {
    match i {
        JumpInstr::JpNn => spec_jp_nn(s),
        JumpInstr::JpHl => spec_jp_hl(s),
        JumpInstr::JpCcNn(cc) => spec_jp_cc_nn(s, cc),
        JumpInstr::JrSn => spec_jr_sn(s),
        JumpInstr::JrCcSn(cc) => spec_jr_cc_sn(s, cc),
        JumpInstr::CallNn => spec_call_nn(s),
        JumpInstr::CallCcNn(cc) => spec_call_cc_nn(s, cc),
        JumpInstr::Ret => spec_ret(s),
        JumpInstr::Reti => spec_reti(s),
        JumpInstr::RetCc(cc) => spec_ret_cc(s, cc),
        JumpInstr::Rst(addr) => spec_rst(s, addr),
    }
}

/// Effect of an instruction of the kind: shifts, rotations and single bit operations (0xCB opcodes)
#[verifier::opaque]
pub open spec fn spec_run_bits(s: CpuView, i: BitsInstr) -> CpuView {
    match i {
        BitsInstr::ShiftR(op, r) => spec_shift_r(s, op, r),
        BitsInstr::ShiftMhl(op) => spec_shift_mhl(s, op),
        BitsInstr::BitR(b, r) => spec_bit_r(s, b, r),
        BitsInstr::BitMhl(b) => spec_bit_mhl(s, b),
        BitsInstr::ResR(b, r) => spec_res_r(s, b, r),
        BitsInstr::ResMhl(b) => spec_res_mhl(s, b),
        BitsInstr::SetR(b, r) => spec_set_r(s, b, r),
        BitsInstr::SetMhl(b) => spec_set_mhl(s, b),
    }
}

/// Effect of instruction `i`
pub open spec fn spec_run(s: CpuView, i: Instr) -> CpuView {
    match i {
        Instr::Control(j) => spec_run_control(s, j),
        Instr::Load8(j) => spec_run_load8(s, j),
        Instr::Load16(j) => spec_run_load16(s, j),
        Instr::Arith8(j) => spec_run_arith8(s, j),
        Instr::Arith16(j) => spec_run_arith16(s, j),
        Instr::Jump(j) => spec_run_jump(s, j),
        Instr::Bits(j) => spec_run_bits(s, j),
    }
}

/// Run an instruction of the kind: instructions that control the CPU or work on `A` and the flags alone
fn run_control(cpu: &mut Cpu, i: ControlInstr)
    requires
        old(cpu).wf(),
        old(cpu)@.instruction_delay <= 40,
    ensures
        final(cpu).wf(),
        final(cpu)@ === spec_run_control(old(cpu)@, i),
{
    proof {
        reveal(spec_run_control);
    }
    match i {
        ControlInstr::Nop => nop(cpu),
        ControlInstr::Undefined => undefined(cpu),
        ControlInstr::RotA(op) => rotate_a(cpu, op),
        ControlInstr::Cpl => cpl(cpu),
        ControlInstr::Ccf => ccf(cpu),
        ControlInstr::Scf => scf(cpu),
        ControlInstr::Di => di(cpu),
        ControlInstr::Ei => ei(cpu),
        ControlInstr::Halt => halt(cpu),
        ControlInstr::Stop => stop(cpu),
        ControlInstr::Unimplemented(_) => {},
    }
}

/// Run an instruction of the kind: 8 bit loads and stores
fn run_load8(cpu: &mut Cpu, i: Load8Instr)
    requires
        old(cpu).wf(),
        old(cpu)@.instruction_delay <= 40,
    ensures
        final(cpu).wf(),
        final(cpu)@ === spec_run_load8(old(cpu)@, i),
{
    proof {
        reveal(spec_run_load8);
    }
    match i {
        Load8Instr::LdRR(d, r) => ld_r_r(cpu, d, r),
        Load8Instr::LdRN(d) => ld_r_n(cpu, d),
        Load8Instr::LdRMrr(d, rr) => ld_r_mrr(cpu, d, rr),
        Load8Instr::LdMrrR(rr, r) => ld_mrr_r(cpu, rr, r),
        Load8Instr::LdMhlN => ld_mhl_n(cpu),
        Load8Instr::LdAMnn => ld_a_mnn(cpu),
        Load8Instr::LdMnnA => ld_mnn_a(cpu),
        Load8Instr::LdidMhlA(inc) => ldid_mhl_a(cpu, inc),
        Load8Instr::LdidAMhl(inc) => ldid_a_mhl(cpu, inc),
        Load8Instr::LdhMnA => ldh_mn_a(cpu),
        Load8Instr::LdhMcA => ldh_mc_a(cpu),
        Load8Instr::LdhAMn => ldh_a_mn(cpu),
        Load8Instr::LdhAMc => ldh_a_mc(cpu),
    }
}

/// Run an instruction of the kind: 16 bit loads, stack pushes and pops
fn run_load16(cpu: &mut Cpu, i: Load16Instr)
    requires
        old(cpu).wf(),
        old(cpu)@.instruction_delay <= 40,
    ensures
        final(cpu).wf(),
        final(cpu)@ === spec_run_load16(old(cpu)@, i),
{
    proof {
        reveal(spec_run_load16);
    }
    match i {
        Load16Instr::LdMnnSp => ld_mnn_sp(cpu),
        Load16Instr::LdRrNn(rr) => ld_rr_nn(cpu, rr),
        Load16Instr::LdSpHl => ld_sp_hl(cpu),
        Load16Instr::LdHlSpSn => ld_hl_sp_sn(cpu),
        Load16Instr::PushRr(rr) => push_rr(cpu, rr),
        Load16Instr::PopRr(rr) => pop_rr(cpu, rr),
    }
}

/// Run an instruction of the kind: 8 bit arithmetic and logic
fn run_arith8(cpu: &mut Cpu, i: Arith8Instr)
    requires
        old(cpu).wf(),
        old(cpu)@.instruction_delay <= 40,
    ensures
        final(cpu).wf(),
        final(cpu)@ === spec_run_arith8(old(cpu)@, i),
{
    proof {
        reveal(spec_run_arith8);
    }
    match i {
        Arith8Instr::IncR(r) => inc_r(cpu, r),
        Arith8Instr::DecR(r) => dec_r(cpu, r),
        Arith8Instr::IncMhl => inc_mhl(cpu),
        Arith8Instr::DecMhl => dec_mhl(cpu),
        Arith8Instr::AluR(op, r) => alu_r(cpu, op, r),
        Arith8Instr::AluMhl(op) => alu_mhl(cpu, op),
        Arith8Instr::AluN(op) => alu_n(cpu, op),
    }
}

/// Run an instruction of the kind: 16 bit arithmetic
fn run_arith16(cpu: &mut Cpu, i: Arith16Instr)
    requires
        old(cpu).wf(),
        old(cpu)@.instruction_delay <= 40,
    ensures
        final(cpu).wf(),
        final(cpu)@ === spec_run_arith16(old(cpu)@, i),
{
    proof {
        reveal(spec_run_arith16);
    }
    match i {
        Arith16Instr::IncRr(rr) => inc_rr(cpu, rr),
        Arith16Instr::DecRr(rr) => dec_rr(cpu, rr),
        Arith16Instr::AddHlRr(rr) => add_hl_rr(cpu, rr),
        Arith16Instr::AddSpSn => add_sp_sn(cpu),
    }
}

/// Run an instruction of the kind: jumps, calls and returns
fn run_jump(cpu: &mut Cpu, i: JumpInstr)
    requires
        old(cpu).wf(),
        old(cpu)@.instruction_delay <= 40,
    ensures
        final(cpu).wf(),
        final(cpu)@ === spec_run_jump(old(cpu)@, i),
{
    proof {
        reveal(spec_run_jump);
    }
    match i {
        JumpInstr::JpNn => jp_nn(cpu),
        JumpInstr::JpHl => jp_hl(cpu),
        JumpInstr::JpCcNn(cc) => jp_cc_nn(cpu, cc),
        JumpInstr::JrSn => jr_sn(cpu),
        JumpInstr::JrCcSn(cc) => jr_cc_sn(cpu, cc),
        JumpInstr::CallNn => call_nn(cpu),
        JumpInstr::CallCcNn(cc) => call_cc_nn(cpu, cc),
        JumpInstr::Ret => ret(cpu),
        JumpInstr::Reti => reti(cpu),
        JumpInstr::RetCc(cc) => ret_cc(cpu, cc),
        JumpInstr::Rst(addr) => rst(cpu, addr),
    }
}

/// Run an instruction of the kind: shifts, rotations and single bit operations (0xCB opcodes)
fn run_bits(cpu: &mut Cpu, i: BitsInstr)
    requires
        old(cpu).wf(),
        old(cpu)@.instruction_delay <= 40,
        spec_instr_ok(Instr::Bits(i)),
    ensures
        final(cpu).wf(),
        final(cpu)@ === spec_run_bits(old(cpu)@, i),
{
    proof {
        reveal(spec_run_bits);
    }
    match i {
        BitsInstr::ShiftR(op, r) => shift_r(cpu, op, r),
        BitsInstr::ShiftMhl(op) => shift_mhl(cpu, op),
        BitsInstr::BitR(b, r) => bit_r(cpu, b, r),
        BitsInstr::BitMhl(b) => bit_mhl(cpu, b),
        BitsInstr::ResR(b, r) => res_r(cpu, b, r),
        BitsInstr::ResMhl(b) => res_mhl(cpu, b),
        BitsInstr::SetR(b, r) => set_r(cpu, b, r),
        BitsInstr::SetMhl(b) => set_mhl(cpu, b),
    }
}

/// Run instruction `i`, whose bytes have been fetched. Conditional
/// jumps, calls and returns add up to 12 clock cycles to the
/// instruction delay: the bound on the delay leaves room for them
/// below the bound a consistent CPU keeps. `Cpu::step` runs each
/// instruction with a delay of at most 23 (6 machine cycles).
pub fn run(cpu: &mut Cpu, i: Instr)
    requires
        old(cpu).wf(),
        old(cpu)@.instruction_delay <= 40,
        spec_instr_ok(i),
    ensures
        final(cpu).wf(),
        final(cpu)@ === spec_run(old(cpu)@, i),
{
    match i {
        Instr::Control(j) => run_control(cpu, j),
        Instr::Load8(j) => run_load8(cpu, j),
        Instr::Load16(j) => run_load16(cpu, j),
        Instr::Arith8(j) => run_arith8(cpu, j),
        Instr::Arith16(j) => run_arith16(cpu, j),
        Instr::Jump(j) => run_jump(cpu, j),
        Instr::Bits(j) => run_bits(cpu, j),
    }
}

/// Opcode table: number of machine cycles taken by opcode `op` (an
/// extra delay is added by the conditional instructions that branch)
/// and what it does. 0xCB introduces a two-byte bitops opcode.
pub open spec fn spec_opcode(op: u8) -> (u32, Instr) {
    match op {
        0x00 => (1, Instr::Control(ControlInstr::Nop)),
        0x01 => (3, Instr::Load16(Load16Instr::LdRrNn(Reg16::BC))),
        0x02 => (2, Instr::Load8(Load8Instr::LdMrrR(Reg16::BC, Reg8::A))),
        0x03 => (2, Instr::Arith16(Arith16Instr::IncRr(Reg16::BC))),
        0x04 => (1, Instr::Arith8(Arith8Instr::IncR(Reg8::B))),
        0x05 => (1, Instr::Arith8(Arith8Instr::DecR(Reg8::B))),
        0x06 => (2, Instr::Load8(Load8Instr::LdRN(Reg8::B))),
        0x07 => (1, Instr::Control(ControlInstr::RotA(RotA::Rlca))),
        0x08 => (5, Instr::Load16(Load16Instr::LdMnnSp)),
        0x09 => (2, Instr::Arith16(Arith16Instr::AddHlRr(Reg16::BC))),
        0x0a => (2, Instr::Load8(Load8Instr::LdRMrr(Reg8::A, Reg16::BC))),
        0x0b => (2, Instr::Arith16(Arith16Instr::DecRr(Reg16::BC))),
        0x0c => (1, Instr::Arith8(Arith8Instr::IncR(Reg8::C))),
        0x0d => (1, Instr::Arith8(Arith8Instr::DecR(Reg8::C))),
        0x0e => (2, Instr::Load8(Load8Instr::LdRN(Reg8::C))),
        0x0f => (1, Instr::Control(ControlInstr::RotA(RotA::Rrca))),
        0x10 => (1, Instr::Control(ControlInstr::Stop)),
        0x11 => (3, Instr::Load16(Load16Instr::LdRrNn(Reg16::DE))),
        0x12 => (2, Instr::Load8(Load8Instr::LdMrrR(Reg16::DE, Reg8::A))),
        0x13 => (2, Instr::Arith16(Arith16Instr::IncRr(Reg16::DE))),
        0x14 => (1, Instr::Arith8(Arith8Instr::IncR(Reg8::D))),
        0x15 => (1, Instr::Arith8(Arith8Instr::DecR(Reg8::D))),
        0x16 => (2, Instr::Load8(Load8Instr::LdRN(Reg8::D))),
        0x17 => (1, Instr::Control(ControlInstr::RotA(RotA::Rla))),
        0x18 => (3, Instr::Jump(JumpInstr::JrSn)),
        0x19 => (2, Instr::Arith16(Arith16Instr::AddHlRr(Reg16::DE))),
        0x1a => (2, Instr::Load8(Load8Instr::LdRMrr(Reg8::A, Reg16::DE))),
        0x1b => (2, Instr::Arith16(Arith16Instr::DecRr(Reg16::DE))),
        0x1c => (1, Instr::Arith8(Arith8Instr::IncR(Reg8::E))),
        0x1d => (1, Instr::Arith8(Arith8Instr::DecR(Reg8::E))),
        0x1e => (2, Instr::Load8(Load8Instr::LdRN(Reg8::E))),
        0x1f => (1, Instr::Control(ControlInstr::RotA(RotA::Rra))),
        0x20 => (2, Instr::Jump(JumpInstr::JrCcSn(Cond::NZ))),
        0x21 => (3, Instr::Load16(Load16Instr::LdRrNn(Reg16::HL))),
        0x22 => (2, Instr::Load8(Load8Instr::LdidMhlA(true))),
        0x23 => (2, Instr::Arith16(Arith16Instr::IncRr(Reg16::HL))),
        0x24 => (1, Instr::Arith8(Arith8Instr::IncR(Reg8::H))),
        0x25 => (1, Instr::Arith8(Arith8Instr::DecR(Reg8::H))),
        0x26 => (2, Instr::Load8(Load8Instr::LdRN(Reg8::H))),
        0x27 => (0, Instr::Control(ControlInstr::Unimplemented(0x27))),
        0x28 => (2, Instr::Jump(JumpInstr::JrCcSn(Cond::Z))),
        0x29 => (2, Instr::Arith16(Arith16Instr::AddHlRr(Reg16::HL))),
        0x2a => (2, Instr::Load8(Load8Instr::LdidAMhl(true))),
        0x2b => (2, Instr::Arith16(Arith16Instr::DecRr(Reg16::HL))),
        0x2c => (1, Instr::Arith8(Arith8Instr::IncR(Reg8::L))),
        0x2d => (1, Instr::Arith8(Arith8Instr::DecR(Reg8::L))),
        0x2e => (2, Instr::Load8(Load8Instr::LdRN(Reg8::L))),
        0x2f => (1, Instr::Control(ControlInstr::Cpl)),
        0x30 => (2, Instr::Jump(JumpInstr::JrCcSn(Cond::NC))),
        0x31 => (3, Instr::Load16(Load16Instr::LdRrNn(Reg16::SP))),
        0x32 => (2, Instr::Load8(Load8Instr::LdidMhlA(false))),
        0x33 => (2, Instr::Arith16(Arith16Instr::IncRr(Reg16::SP))),
        0x34 => (3, Instr::Arith8(Arith8Instr::IncMhl)),
        0x35 => (3, Instr::Arith8(Arith8Instr::DecMhl)),
        0x36 => (3, Instr::Load8(Load8Instr::LdMhlN)),
        0x37 => (1, Instr::Control(ControlInstr::Scf)),
        0x38 => (2, Instr::Jump(JumpInstr::JrCcSn(Cond::C))),
        0x39 => (2, Instr::Arith16(Arith16Instr::AddHlRr(Reg16::SP))),
        0x3a => (2, Instr::Load8(Load8Instr::LdidAMhl(false))),
        0x3b => (2, Instr::Arith16(Arith16Instr::DecRr(Reg16::SP))),
        0x3c => (1, Instr::Arith8(Arith8Instr::IncR(Reg8::A))),
        0x3d => (1, Instr::Arith8(Arith8Instr::DecR(Reg8::A))),
        0x3e => (2, Instr::Load8(Load8Instr::LdRN(Reg8::A))),
        0x3f => (1, Instr::Control(ControlInstr::Ccf)),
        0x40 => (1, Instr::Load8(Load8Instr::LdRR(Reg8::B, Reg8::B))),
        0x41 => (1, Instr::Load8(Load8Instr::LdRR(Reg8::B, Reg8::C))),
        0x42 => (1, Instr::Load8(Load8Instr::LdRR(Reg8::B, Reg8::D))),
        0x43 => (1, Instr::Load8(Load8Instr::LdRR(Reg8::B, Reg8::E))),
        0x44 => (1, Instr::Load8(Load8Instr::LdRR(Reg8::B, Reg8::H))),
        0x45 => (1, Instr::Load8(Load8Instr::LdRR(Reg8::B, Reg8::L))),
        0x46 => (2, Instr::Load8(Load8Instr::LdRMrr(Reg8::B, Reg16::HL))),
        0x47 => (1, Instr::Load8(Load8Instr::LdRR(Reg8::B, Reg8::A))),
        0x48 => (1, Instr::Load8(Load8Instr::LdRR(Reg8::C, Reg8::B))),
        0x49 => (1, Instr::Load8(Load8Instr::LdRR(Reg8::C, Reg8::C))),
        0x4a => (1, Instr::Load8(Load8Instr::LdRR(Reg8::C, Reg8::D))),
        0x4b => (1, Instr::Load8(Load8Instr::LdRR(Reg8::C, Reg8::E))),
        0x4c => (1, Instr::Load8(Load8Instr::LdRR(Reg8::C, Reg8::H))),
        0x4d => (1, Instr::Load8(Load8Instr::LdRR(Reg8::C, Reg8::L))),
        0x4e => (2, Instr::Load8(Load8Instr::LdRMrr(Reg8::C, Reg16::HL))),
        0x4f => (1, Instr::Load8(Load8Instr::LdRR(Reg8::C, Reg8::A))),
        0x50 => (1, Instr::Load8(Load8Instr::LdRR(Reg8::D, Reg8::B))),
        0x51 => (1, Instr::Load8(Load8Instr::LdRR(Reg8::D, Reg8::C))),
        0x52 => (1, Instr::Load8(Load8Instr::LdRR(Reg8::D, Reg8::D))),
        0x53 => (1, Instr::Load8(Load8Instr::LdRR(Reg8::D, Reg8::E))),
        0x54 => (1, Instr::Load8(Load8Instr::LdRR(Reg8::D, Reg8::H))),
        0x55 => (1, Instr::Load8(Load8Instr::LdRR(Reg8::D, Reg8::L))),
        0x56 => (2, Instr::Load8(Load8Instr::LdRMrr(Reg8::D, Reg16::HL))),
        0x57 => (1, Instr::Load8(Load8Instr::LdRR(Reg8::D, Reg8::A))),
        0x58 => (1, Instr::Load8(Load8Instr::LdRR(Reg8::E, Reg8::B))),
        0x59 => (1, Instr::Load8(Load8Instr::LdRR(Reg8::E, Reg8::C))),
        0x5a => (1, Instr::Load8(Load8Instr::LdRR(Reg8::E, Reg8::D))),
        0x5b => (1, Instr::Load8(Load8Instr::LdRR(Reg8::E, Reg8::E))),
        0x5c => (1, Instr::Load8(Load8Instr::LdRR(Reg8::E, Reg8::H))),
        0x5d => (1, Instr::Load8(Load8Instr::LdRR(Reg8::E, Reg8::L))),
        0x5e => (2, Instr::Load8(Load8Instr::LdRMrr(Reg8::E, Reg16::HL))),
        0x5f => (1, Instr::Load8(Load8Instr::LdRR(Reg8::E, Reg8::A))),
        0x60 => (1, Instr::Load8(Load8Instr::LdRR(Reg8::H, Reg8::B))),
        0x61 => (1, Instr::Load8(Load8Instr::LdRR(Reg8::H, Reg8::C))),
        0x62 => (1, Instr::Load8(Load8Instr::LdRR(Reg8::H, Reg8::D))),
        0x63 => (1, Instr::Load8(Load8Instr::LdRR(Reg8::H, Reg8::E))),
        0x64 => (1, Instr::Load8(Load8Instr::LdRR(Reg8::H, Reg8::H))),
        0x65 => (1, Instr::Load8(Load8Instr::LdRR(Reg8::H, Reg8::L))),
        0x66 => (2, Instr::Load8(Load8Instr::LdRMrr(Reg8::H, Reg16::HL))),
        0x67 => (1, Instr::Load8(Load8Instr::LdRR(Reg8::H, Reg8::A))),
        0x68 => (1, Instr::Load8(Load8Instr::LdRR(Reg8::L, Reg8::B))),
        0x69 => (1, Instr::Load8(Load8Instr::LdRR(Reg8::L, Reg8::C))),
        0x6a => (1, Instr::Load8(Load8Instr::LdRR(Reg8::L, Reg8::D))),
        0x6b => (1, Instr::Load8(Load8Instr::LdRR(Reg8::L, Reg8::E))),
        0x6c => (1, Instr::Load8(Load8Instr::LdRR(Reg8::L, Reg8::H))),
        0x6d => (1, Instr::Load8(Load8Instr::LdRR(Reg8::L, Reg8::L))),
        0x6e => (2, Instr::Load8(Load8Instr::LdRMrr(Reg8::L, Reg16::HL))),
        0x6f => (1, Instr::Load8(Load8Instr::LdRR(Reg8::L, Reg8::A))),
        0x70 => (2, Instr::Load8(Load8Instr::LdMrrR(Reg16::HL, Reg8::B))),
        0x71 => (2, Instr::Load8(Load8Instr::LdMrrR(Reg16::HL, Reg8::C))),
        0x72 => (2, Instr::Load8(Load8Instr::LdMrrR(Reg16::HL, Reg8::D))),
        0x73 => (2, Instr::Load8(Load8Instr::LdMrrR(Reg16::HL, Reg8::E))),
        0x74 => (2, Instr::Load8(Load8Instr::LdMrrR(Reg16::HL, Reg8::H))),
        0x75 => (2, Instr::Load8(Load8Instr::LdMrrR(Reg16::HL, Reg8::L))),
        0x76 => (1, Instr::Control(ControlInstr::Halt)),
        0x77 => (2, Instr::Load8(Load8Instr::LdMrrR(Reg16::HL, Reg8::A))),
        0x78 => (1, Instr::Load8(Load8Instr::LdRR(Reg8::A, Reg8::B))),
        0x79 => (1, Instr::Load8(Load8Instr::LdRR(Reg8::A, Reg8::C))),
        0x7a => (1, Instr::Load8(Load8Instr::LdRR(Reg8::A, Reg8::D))),
        0x7b => (1, Instr::Load8(Load8Instr::LdRR(Reg8::A, Reg8::E))),
        0x7c => (1, Instr::Load8(Load8Instr::LdRR(Reg8::A, Reg8::H))),
        0x7d => (1, Instr::Load8(Load8Instr::LdRR(Reg8::A, Reg8::L))),
        0x7e => (2, Instr::Load8(Load8Instr::LdRMrr(Reg8::A, Reg16::HL))),
        0x7f => (1, Instr::Load8(Load8Instr::LdRR(Reg8::A, Reg8::A))),
        0x80 => (1, Instr::Arith8(Arith8Instr::AluR(AluOp::Add, Reg8::B))),
        0x81 => (1, Instr::Arith8(Arith8Instr::AluR(AluOp::Add, Reg8::C))),
        0x82 => (1, Instr::Arith8(Arith8Instr::AluR(AluOp::Add, Reg8::D))),
        0x83 => (1, Instr::Arith8(Arith8Instr::AluR(AluOp::Add, Reg8::E))),
        0x84 => (1, Instr::Arith8(Arith8Instr::AluR(AluOp::Add, Reg8::H))),
        0x85 => (1, Instr::Arith8(Arith8Instr::AluR(AluOp::Add, Reg8::L))),
        0x86 => (2, Instr::Arith8(Arith8Instr::AluMhl(AluOp::Add))),
        0x87 => (1, Instr::Arith8(Arith8Instr::AluR(AluOp::Add, Reg8::A))),
        0x88 => (1, Instr::Arith8(Arith8Instr::AluR(AluOp::Adc, Reg8::B))),
        0x89 => (1, Instr::Arith8(Arith8Instr::AluR(AluOp::Adc, Reg8::C))),
        0x8a => (1, Instr::Arith8(Arith8Instr::AluR(AluOp::Adc, Reg8::D))),
        0x8b => (1, Instr::Arith8(Arith8Instr::AluR(AluOp::Adc, Reg8::E))),
        0x8c => (1, Instr::Arith8(Arith8Instr::AluR(AluOp::Adc, Reg8::H))),
        0x8d => (1, Instr::Arith8(Arith8Instr::AluR(AluOp::Adc, Reg8::L))),
        0x8e => (2, Instr::Arith8(Arith8Instr::AluMhl(AluOp::Adc))),
        0x8f => (1, Instr::Arith8(Arith8Instr::AluR(AluOp::Adc, Reg8::A))),
        0x90 => (1, Instr::Arith8(Arith8Instr::AluR(AluOp::Sub, Reg8::B))),
        0x91 => (1, Instr::Arith8(Arith8Instr::AluR(AluOp::Sub, Reg8::C))),
        0x92 => (1, Instr::Arith8(Arith8Instr::AluR(AluOp::Sub, Reg8::D))),
        0x93 => (1, Instr::Arith8(Arith8Instr::AluR(AluOp::Sub, Reg8::E))),
        0x94 => (1, Instr::Arith8(Arith8Instr::AluR(AluOp::Sub, Reg8::H))),
        0x95 => (1, Instr::Arith8(Arith8Instr::AluR(AluOp::Sub, Reg8::L))),
        0x96 => (2, Instr::Arith8(Arith8Instr::AluMhl(AluOp::Sub))),
        0x97 => (1, Instr::Arith8(Arith8Instr::AluR(AluOp::Sub, Reg8::A))),
        0x98 => (1, Instr::Arith8(Arith8Instr::AluR(AluOp::Sbc, Reg8::B))),
        0x99 => (1, Instr::Arith8(Arith8Instr::AluR(AluOp::Sbc, Reg8::C))),
        0x9a => (1, Instr::Arith8(Arith8Instr::AluR(AluOp::Sbc, Reg8::D))),
        0x9b => (1, Instr::Arith8(Arith8Instr::AluR(AluOp::Sbc, Reg8::E))),
        0x9c => (1, Instr::Arith8(Arith8Instr::AluR(AluOp::Sbc, Reg8::H))),
        0x9d => (1, Instr::Arith8(Arith8Instr::AluR(AluOp::Sbc, Reg8::L))),
        0x9e => (2, Instr::Arith8(Arith8Instr::AluMhl(AluOp::Sbc))),
        0x9f => (1, Instr::Arith8(Arith8Instr::AluR(AluOp::Sbc, Reg8::A))),
        0xa0 => (1, Instr::Arith8(Arith8Instr::AluR(AluOp::And, Reg8::B))),
        0xa1 => (1, Instr::Arith8(Arith8Instr::AluR(AluOp::And, Reg8::C))),
        0xa2 => (1, Instr::Arith8(Arith8Instr::AluR(AluOp::And, Reg8::D))),
        0xa3 => (1, Instr::Arith8(Arith8Instr::AluR(AluOp::And, Reg8::E))),
        0xa4 => (1, Instr::Arith8(Arith8Instr::AluR(AluOp::And, Reg8::H))),
        0xa5 => (1, Instr::Arith8(Arith8Instr::AluR(AluOp::And, Reg8::L))),
        0xa6 => (2, Instr::Arith8(Arith8Instr::AluMhl(AluOp::And))),
        0xa7 => (1, Instr::Arith8(Arith8Instr::AluR(AluOp::And, Reg8::A))),
        0xa8 => (1, Instr::Arith8(Arith8Instr::AluR(AluOp::Xor, Reg8::B))),
        0xa9 => (1, Instr::Arith8(Arith8Instr::AluR(AluOp::Xor, Reg8::C))),
        0xaa => (1, Instr::Arith8(Arith8Instr::AluR(AluOp::Xor, Reg8::D))),
        0xab => (1, Instr::Arith8(Arith8Instr::AluR(AluOp::Xor, Reg8::E))),
        0xac => (1, Instr::Arith8(Arith8Instr::AluR(AluOp::Xor, Reg8::H))),
        0xad => (1, Instr::Arith8(Arith8Instr::AluR(AluOp::Xor, Reg8::L))),
        0xae => (2, Instr::Arith8(Arith8Instr::AluMhl(AluOp::Xor))),
        0xaf => (1, Instr::Arith8(Arith8Instr::AluR(AluOp::Xor, Reg8::A))),
        0xb0 => (1, Instr::Arith8(Arith8Instr::AluR(AluOp::Or, Reg8::B))),
        0xb1 => (1, Instr::Arith8(Arith8Instr::AluR(AluOp::Or, Reg8::C))),
        0xb2 => (1, Instr::Arith8(Arith8Instr::AluR(AluOp::Or, Reg8::D))),
        0xb3 => (1, Instr::Arith8(Arith8Instr::AluR(AluOp::Or, Reg8::E))),
        0xb4 => (1, Instr::Arith8(Arith8Instr::AluR(AluOp::Or, Reg8::H))),
        0xb5 => (1, Instr::Arith8(Arith8Instr::AluR(AluOp::Or, Reg8::L))),
        0xb6 => (2, Instr::Arith8(Arith8Instr::AluMhl(AluOp::Or))),
        0xb7 => (1, Instr::Arith8(Arith8Instr::AluR(AluOp::Or, Reg8::A))),
        0xb8 => (1, Instr::Arith8(Arith8Instr::AluR(AluOp::Cp, Reg8::B))),
        0xb9 => (1, Instr::Arith8(Arith8Instr::AluR(AluOp::Cp, Reg8::C))),
        0xba => (1, Instr::Arith8(Arith8Instr::AluR(AluOp::Cp, Reg8::D))),
        0xbb => (1, Instr::Arith8(Arith8Instr::AluR(AluOp::Cp, Reg8::E))),
        0xbc => (1, Instr::Arith8(Arith8Instr::AluR(AluOp::Cp, Reg8::H))),
        0xbd => (1, Instr::Arith8(Arith8Instr::AluR(AluOp::Cp, Reg8::L))),
        0xbe => (2, Instr::Arith8(Arith8Instr::AluMhl(AluOp::Cp))),
        0xbf => (1, Instr::Arith8(Arith8Instr::AluR(AluOp::Cp, Reg8::A))),
        0xc0 => (2, Instr::Jump(JumpInstr::RetCc(Cond::NZ))),
        0xc1 => (3, Instr::Load16(Load16Instr::PopRr(Reg16::BC))),
        0xc2 => (3, Instr::Jump(JumpInstr::JpCcNn(Cond::NZ))),
        0xc3 => (3, Instr::Jump(JumpInstr::JpNn)),
        0xc4 => (3, Instr::Jump(JumpInstr::CallCcNn(Cond::NZ))),
        0xc5 => (4, Instr::Load16(Load16Instr::PushRr(Reg16::BC))),
        0xc6 => (2, Instr::Arith8(Arith8Instr::AluN(AluOp::Add))),
        0xc7 => (4, Instr::Jump(JumpInstr::Rst(0x00))),
        0xc8 => (2, Instr::Jump(JumpInstr::RetCc(Cond::Z))),
        0xc9 => (4, Instr::Jump(JumpInstr::Ret)),
        0xca => (3, Instr::Jump(JumpInstr::JpCcNn(Cond::Z))),
        0xcb => (0, Instr::Control(ControlInstr::Undefined)),
        0xcc => (3, Instr::Jump(JumpInstr::CallCcNn(Cond::Z))),
        0xcd => (6, Instr::Jump(JumpInstr::CallNn)),
        0xce => (2, Instr::Arith8(Arith8Instr::AluN(AluOp::Adc))),
        0xcf => (4, Instr::Jump(JumpInstr::Rst(0x08))),
        0xd0 => (2, Instr::Jump(JumpInstr::RetCc(Cond::NC))),
        0xd1 => (3, Instr::Load16(Load16Instr::PopRr(Reg16::DE))),
        0xd2 => (3, Instr::Jump(JumpInstr::JpCcNn(Cond::NC))),
        0xd3 => (1, Instr::Control(ControlInstr::Undefined)),
        0xd4 => (3, Instr::Jump(JumpInstr::CallCcNn(Cond::NC))),
        0xd5 => (4, Instr::Load16(Load16Instr::PushRr(Reg16::DE))),
        0xd6 => (2, Instr::Arith8(Arith8Instr::AluN(AluOp::Sub))),
        0xd7 => (4, Instr::Jump(JumpInstr::Rst(0x10))),
        0xd8 => (2, Instr::Jump(JumpInstr::RetCc(Cond::C))),
        0xd9 => (4, Instr::Jump(JumpInstr::Reti)),
        0xda => (3, Instr::Jump(JumpInstr::JpCcNn(Cond::C))),
        0xdb => (1, Instr::Control(ControlInstr::Undefined)),
        0xdc => (3, Instr::Jump(JumpInstr::CallCcNn(Cond::C))),
        0xdd => (1, Instr::Control(ControlInstr::Undefined)),
        0xde => (2, Instr::Arith8(Arith8Instr::AluN(AluOp::Sbc))),
        0xdf => (4, Instr::Jump(JumpInstr::Rst(0x18))),
        0xe0 => (3, Instr::Load8(Load8Instr::LdhMnA)),
        0xe1 => (3, Instr::Load16(Load16Instr::PopRr(Reg16::HL))),
        0xe2 => (2, Instr::Load8(Load8Instr::LdhMcA)),
        0xe3 => (1, Instr::Control(ControlInstr::Undefined)),
        0xe4 => (1, Instr::Control(ControlInstr::Undefined)),
        0xe5 => (4, Instr::Load16(Load16Instr::PushRr(Reg16::HL))),
        0xe6 => (2, Instr::Arith8(Arith8Instr::AluN(AluOp::And))),
        0xe7 => (4, Instr::Jump(JumpInstr::Rst(0x20))),
        0xe8 => (4, Instr::Arith16(Arith16Instr::AddSpSn)),
        0xe9 => (1, Instr::Jump(JumpInstr::JpHl)),
        0xea => (4, Instr::Load8(Load8Instr::LdMnnA)),
        0xeb => (1, Instr::Control(ControlInstr::Undefined)),
        0xec => (1, Instr::Control(ControlInstr::Undefined)),
        0xed => (1, Instr::Control(ControlInstr::Undefined)),
        0xee => (2, Instr::Arith8(Arith8Instr::AluN(AluOp::Xor))),
        0xef => (4, Instr::Jump(JumpInstr::Rst(0x28))),
        0xf0 => (3, Instr::Load8(Load8Instr::LdhAMn)),
        0xf1 => (3, Instr::Load16(Load16Instr::PopRr(Reg16::AF))),
        0xf2 => (2, Instr::Load8(Load8Instr::LdhAMc)),
        0xf3 => (1, Instr::Control(ControlInstr::Di)),
        0xf4 => (1, Instr::Control(ControlInstr::Undefined)),
        0xf5 => (4, Instr::Load16(Load16Instr::PushRr(Reg16::AF))),
        0xf6 => (2, Instr::Arith8(Arith8Instr::AluN(AluOp::Or))),
        0xf7 => (4, Instr::Jump(JumpInstr::Rst(0x30))),
        0xf8 => (3, Instr::Load16(Load16Instr::LdHlSpSn)),
        0xf9 => (2, Instr::Load16(Load16Instr::LdSpHl)),
        0xfa => (2, Instr::Load8(Load8Instr::LdAMnn)),
        0xfb => (1, Instr::Control(ControlInstr::Ei)),
        0xfc => (1, Instr::Control(ControlInstr::Undefined)),
        0xfd => (1, Instr::Control(ControlInstr::Undefined)),
        0xfe => (2, Instr::Arith8(Arith8Instr::AluN(AluOp::Cp))),
        _ => (4, Instr::Jump(JumpInstr::Rst(0x38))),
    }
}

/// Opcode table: delay and instruction of opcode `op`
pub fn opcode(op: u8) -> (r: (u32, Instr))
    ensures
        r == spec_opcode(op),
        r.0 <= 6,
        op != 0xcb ==> (r.0 == 0 <==> spec_is_unimplemented(r.1)),
        spec_instr_ok(r.1),
{
    match op {
        0x00 => (1, Instr::Control(ControlInstr::Nop)),
        0x01 => (3, Instr::Load16(Load16Instr::LdRrNn(Reg16::BC))),
        0x02 => (2, Instr::Load8(Load8Instr::LdMrrR(Reg16::BC, Reg8::A))),
        0x03 => (2, Instr::Arith16(Arith16Instr::IncRr(Reg16::BC))),
        0x04 => (1, Instr::Arith8(Arith8Instr::IncR(Reg8::B))),
        0x05 => (1, Instr::Arith8(Arith8Instr::DecR(Reg8::B))),
        0x06 => (2, Instr::Load8(Load8Instr::LdRN(Reg8::B))),
        0x07 => (1, Instr::Control(ControlInstr::RotA(RotA::Rlca))),
        0x08 => (5, Instr::Load16(Load16Instr::LdMnnSp)),
        0x09 => (2, Instr::Arith16(Arith16Instr::AddHlRr(Reg16::BC))),
        0x0a => (2, Instr::Load8(Load8Instr::LdRMrr(Reg8::A, Reg16::BC))),
        0x0b => (2, Instr::Arith16(Arith16Instr::DecRr(Reg16::BC))),
        0x0c => (1, Instr::Arith8(Arith8Instr::IncR(Reg8::C))),
        0x0d => (1, Instr::Arith8(Arith8Instr::DecR(Reg8::C))),
        0x0e => (2, Instr::Load8(Load8Instr::LdRN(Reg8::C))),
        0x0f => (1, Instr::Control(ControlInstr::RotA(RotA::Rrca))),
        0x10 => (1, Instr::Control(ControlInstr::Stop)),
        0x11 => (3, Instr::Load16(Load16Instr::LdRrNn(Reg16::DE))),
        0x12 => (2, Instr::Load8(Load8Instr::LdMrrR(Reg16::DE, Reg8::A))),
        0x13 => (2, Instr::Arith16(Arith16Instr::IncRr(Reg16::DE))),
        0x14 => (1, Instr::Arith8(Arith8Instr::IncR(Reg8::D))),
        0x15 => (1, Instr::Arith8(Arith8Instr::DecR(Reg8::D))),
        0x16 => (2, Instr::Load8(Load8Instr::LdRN(Reg8::D))),
        0x17 => (1, Instr::Control(ControlInstr::RotA(RotA::Rla))),
        0x18 => (3, Instr::Jump(JumpInstr::JrSn)),
        0x19 => (2, Instr::Arith16(Arith16Instr::AddHlRr(Reg16::DE))),
        0x1a => (2, Instr::Load8(Load8Instr::LdRMrr(Reg8::A, Reg16::DE))),
        0x1b => (2, Instr::Arith16(Arith16Instr::DecRr(Reg16::DE))),
        0x1c => (1, Instr::Arith8(Arith8Instr::IncR(Reg8::E))),
        0x1d => (1, Instr::Arith8(Arith8Instr::DecR(Reg8::E))),
        0x1e => (2, Instr::Load8(Load8Instr::LdRN(Reg8::E))),
        0x1f => (1, Instr::Control(ControlInstr::RotA(RotA::Rra))),
        0x20 => (2, Instr::Jump(JumpInstr::JrCcSn(Cond::NZ))),
        0x21 => (3, Instr::Load16(Load16Instr::LdRrNn(Reg16::HL))),
        0x22 => (2, Instr::Load8(Load8Instr::LdidMhlA(true))),
        0x23 => (2, Instr::Arith16(Arith16Instr::IncRr(Reg16::HL))),
        0x24 => (1, Instr::Arith8(Arith8Instr::IncR(Reg8::H))),
        0x25 => (1, Instr::Arith8(Arith8Instr::DecR(Reg8::H))),
        0x26 => (2, Instr::Load8(Load8Instr::LdRN(Reg8::H))),
        0x27 => (0, Instr::Control(ControlInstr::Unimplemented(0x27))),
        0x28 => (2, Instr::Jump(JumpInstr::JrCcSn(Cond::Z))),
        0x29 => (2, Instr::Arith16(Arith16Instr::AddHlRr(Reg16::HL))),
        0x2a => (2, Instr::Load8(Load8Instr::LdidAMhl(true))),
        0x2b => (2, Instr::Arith16(Arith16Instr::DecRr(Reg16::HL))),
        0x2c => (1, Instr::Arith8(Arith8Instr::IncR(Reg8::L))),
        0x2d => (1, Instr::Arith8(Arith8Instr::DecR(Reg8::L))),
        0x2e => (2, Instr::Load8(Load8Instr::LdRN(Reg8::L))),
        0x2f => (1, Instr::Control(ControlInstr::Cpl)),
        0x30 => (2, Instr::Jump(JumpInstr::JrCcSn(Cond::NC))),
        0x31 => (3, Instr::Load16(Load16Instr::LdRrNn(Reg16::SP))),
        0x32 => (2, Instr::Load8(Load8Instr::LdidMhlA(false))),
        0x33 => (2, Instr::Arith16(Arith16Instr::IncRr(Reg16::SP))),
        0x34 => (3, Instr::Arith8(Arith8Instr::IncMhl)),
        0x35 => (3, Instr::Arith8(Arith8Instr::DecMhl)),
        0x36 => (3, Instr::Load8(Load8Instr::LdMhlN)),
        0x37 => (1, Instr::Control(ControlInstr::Scf)),
        0x38 => (2, Instr::Jump(JumpInstr::JrCcSn(Cond::C))),
        0x39 => (2, Instr::Arith16(Arith16Instr::AddHlRr(Reg16::SP))),
        0x3a => (2, Instr::Load8(Load8Instr::LdidAMhl(false))),
        0x3b => (2, Instr::Arith16(Arith16Instr::DecRr(Reg16::SP))),
        0x3c => (1, Instr::Arith8(Arith8Instr::IncR(Reg8::A))),
        0x3d => (1, Instr::Arith8(Arith8Instr::DecR(Reg8::A))),
        0x3e => (2, Instr::Load8(Load8Instr::LdRN(Reg8::A))),
        0x3f => (1, Instr::Control(ControlInstr::Ccf)),
        0x40 => (1, Instr::Load8(Load8Instr::LdRR(Reg8::B, Reg8::B))),
        0x41 => (1, Instr::Load8(Load8Instr::LdRR(Reg8::B, Reg8::C))),
        0x42 => (1, Instr::Load8(Load8Instr::LdRR(Reg8::B, Reg8::D))),
        0x43 => (1, Instr::Load8(Load8Instr::LdRR(Reg8::B, Reg8::E))),
        0x44 => (1, Instr::Load8(Load8Instr::LdRR(Reg8::B, Reg8::H))),
        0x45 => (1, Instr::Load8(Load8Instr::LdRR(Reg8::B, Reg8::L))),
        0x46 => (2, Instr::Load8(Load8Instr::LdRMrr(Reg8::B, Reg16::HL))),
        0x47 => (1, Instr::Load8(Load8Instr::LdRR(Reg8::B, Reg8::A))),
        0x48 => (1, Instr::Load8(Load8Instr::LdRR(Reg8::C, Reg8::B))),
        0x49 => (1, Instr::Load8(Load8Instr::LdRR(Reg8::C, Reg8::C))),
        0x4a => (1, Instr::Load8(Load8Instr::LdRR(Reg8::C, Reg8::D))),
        0x4b => (1, Instr::Load8(Load8Instr::LdRR(Reg8::C, Reg8::E))),
        0x4c => (1, Instr::Load8(Load8Instr::LdRR(Reg8::C, Reg8::H))),
        0x4d => (1, Instr::Load8(Load8Instr::LdRR(Reg8::C, Reg8::L))),
        0x4e => (2, Instr::Load8(Load8Instr::LdRMrr(Reg8::C, Reg16::HL))),
        0x4f => (1, Instr::Load8(Load8Instr::LdRR(Reg8::C, Reg8::A))),
        0x50 => (1, Instr::Load8(Load8Instr::LdRR(Reg8::D, Reg8::B))),
        0x51 => (1, Instr::Load8(Load8Instr::LdRR(Reg8::D, Reg8::C))),
        0x52 => (1, Instr::Load8(Load8Instr::LdRR(Reg8::D, Reg8::D))),
        0x53 => (1, Instr::Load8(Load8Instr::LdRR(Reg8::D, Reg8::E))),
        0x54 => (1, Instr::Load8(Load8Instr::LdRR(Reg8::D, Reg8::H))),
        0x55 => (1, Instr::Load8(Load8Instr::LdRR(Reg8::D, Reg8::L))),
        0x56 => (2, Instr::Load8(Load8Instr::LdRMrr(Reg8::D, Reg16::HL))),
        0x57 => (1, Instr::Load8(Load8Instr::LdRR(Reg8::D, Reg8::A))),
        0x58 => (1, Instr::Load8(Load8Instr::LdRR(Reg8::E, Reg8::B))),
        0x59 => (1, Instr::Load8(Load8Instr::LdRR(Reg8::E, Reg8::C))),
        0x5a => (1, Instr::Load8(Load8Instr::LdRR(Reg8::E, Reg8::D))),
        0x5b => (1, Instr::Load8(Load8Instr::LdRR(Reg8::E, Reg8::E))),
        0x5c => (1, Instr::Load8(Load8Instr::LdRR(Reg8::E, Reg8::H))),
        0x5d => (1, Instr::Load8(Load8Instr::LdRR(Reg8::E, Reg8::L))),
        0x5e => (2, Instr::Load8(Load8Instr::LdRMrr(Reg8::E, Reg16::HL))),
        0x5f => (1, Instr::Load8(Load8Instr::LdRR(Reg8::E, Reg8::A))),
        0x60 => (1, Instr::Load8(Load8Instr::LdRR(Reg8::H, Reg8::B))),
        0x61 => (1, Instr::Load8(Load8Instr::LdRR(Reg8::H, Reg8::C))),
        0x62 => (1, Instr::Load8(Load8Instr::LdRR(Reg8::H, Reg8::D))),
        0x63 => (1, Instr::Load8(Load8Instr::LdRR(Reg8::H, Reg8::E))),
        0x64 => (1, Instr::Load8(Load8Instr::LdRR(Reg8::H, Reg8::H))),
        0x65 => (1, Instr::Load8(Load8Instr::LdRR(Reg8::H, Reg8::L))),
        0x66 => (2, Instr::Load8(Load8Instr::LdRMrr(Reg8::H, Reg16::HL))),
        0x67 => (1, Instr::Load8(Load8Instr::LdRR(Reg8::H, Reg8::A))),
        0x68 => (1, Instr::Load8(Load8Instr::LdRR(Reg8::L, Reg8::B))),
        0x69 => (1, Instr::Load8(Load8Instr::LdRR(Reg8::L, Reg8::C))),
        0x6a => (1, Instr::Load8(Load8Instr::LdRR(Reg8::L, Reg8::D))),
        0x6b => (1, Instr::Load8(Load8Instr::LdRR(Reg8::L, Reg8::E))),
        0x6c => (1, Instr::Load8(Load8Instr::LdRR(Reg8::L, Reg8::H))),
        0x6d => (1, Instr::Load8(Load8Instr::LdRR(Reg8::L, Reg8::L))),
        0x6e => (2, Instr::Load8(Load8Instr::LdRMrr(Reg8::L, Reg16::HL))),
        0x6f => (1, Instr::Load8(Load8Instr::LdRR(Reg8::L, Reg8::A))),
        0x70 => (2, Instr::Load8(Load8Instr::LdMrrR(Reg16::HL, Reg8::B))),
        0x71 => (2, Instr::Load8(Load8Instr::LdMrrR(Reg16::HL, Reg8::C))),
        0x72 => (2, Instr::Load8(Load8Instr::LdMrrR(Reg16::HL, Reg8::D))),
        0x73 => (2, Instr::Load8(Load8Instr::LdMrrR(Reg16::HL, Reg8::E))),
        0x74 => (2, Instr::Load8(Load8Instr::LdMrrR(Reg16::HL, Reg8::H))),
        0x75 => (2, Instr::Load8(Load8Instr::LdMrrR(Reg16::HL, Reg8::L))),
        0x76 => (1, Instr::Control(ControlInstr::Halt)),
        0x77 => (2, Instr::Load8(Load8Instr::LdMrrR(Reg16::HL, Reg8::A))),
        0x78 => (1, Instr::Load8(Load8Instr::LdRR(Reg8::A, Reg8::B))),
        0x79 => (1, Instr::Load8(Load8Instr::LdRR(Reg8::A, Reg8::C))),
        0x7a => (1, Instr::Load8(Load8Instr::LdRR(Reg8::A, Reg8::D))),
        0x7b => (1, Instr::Load8(Load8Instr::LdRR(Reg8::A, Reg8::E))),
        0x7c => (1, Instr::Load8(Load8Instr::LdRR(Reg8::A, Reg8::H))),
        0x7d => (1, Instr::Load8(Load8Instr::LdRR(Reg8::A, Reg8::L))),
        0x7e => (2, Instr::Load8(Load8Instr::LdRMrr(Reg8::A, Reg16::HL))),
        0x7f => (1, Instr::Load8(Load8Instr::LdRR(Reg8::A, Reg8::A))),
        0x80 => (1, Instr::Arith8(Arith8Instr::AluR(AluOp::Add, Reg8::B))),
        0x81 => (1, Instr::Arith8(Arith8Instr::AluR(AluOp::Add, Reg8::C))),
        0x82 => (1, Instr::Arith8(Arith8Instr::AluR(AluOp::Add, Reg8::D))),
        0x83 => (1, Instr::Arith8(Arith8Instr::AluR(AluOp::Add, Reg8::E))),
        0x84 => (1, Instr::Arith8(Arith8Instr::AluR(AluOp::Add, Reg8::H))),
        0x85 => (1, Instr::Arith8(Arith8Instr::AluR(AluOp::Add, Reg8::L))),
        0x86 => (2, Instr::Arith8(Arith8Instr::AluMhl(AluOp::Add))),
        0x87 => (1, Instr::Arith8(Arith8Instr::AluR(AluOp::Add, Reg8::A))),
        0x88 => (1, Instr::Arith8(Arith8Instr::AluR(AluOp::Adc, Reg8::B))),
        0x89 => (1, Instr::Arith8(Arith8Instr::AluR(AluOp::Adc, Reg8::C))),
        0x8a => (1, Instr::Arith8(Arith8Instr::AluR(AluOp::Adc, Reg8::D))),
        0x8b => (1, Instr::Arith8(Arith8Instr::AluR(AluOp::Adc, Reg8::E))),
        0x8c => (1, Instr::Arith8(Arith8Instr::AluR(AluOp::Adc, Reg8::H))),
        0x8d => (1, Instr::Arith8(Arith8Instr::AluR(AluOp::Adc, Reg8::L))),
        0x8e => (2, Instr::Arith8(Arith8Instr::AluMhl(AluOp::Adc))),
        0x8f => (1, Instr::Arith8(Arith8Instr::AluR(AluOp::Adc, Reg8::A))),
        0x90 => (1, Instr::Arith8(Arith8Instr::AluR(AluOp::Sub, Reg8::B))),
        0x91 => (1, Instr::Arith8(Arith8Instr::AluR(AluOp::Sub, Reg8::C))),
        0x92 => (1, Instr::Arith8(Arith8Instr::AluR(AluOp::Sub, Reg8::D))),
        0x93 => (1, Instr::Arith8(Arith8Instr::AluR(AluOp::Sub, Reg8::E))),
        0x94 => (1, Instr::Arith8(Arith8Instr::AluR(AluOp::Sub, Reg8::H))),
        0x95 => (1, Instr::Arith8(Arith8Instr::AluR(AluOp::Sub, Reg8::L))),
        0x96 => (2, Instr::Arith8(Arith8Instr::AluMhl(AluOp::Sub))),
        0x97 => (1, Instr::Arith8(Arith8Instr::AluR(AluOp::Sub, Reg8::A))),
        0x98 => (1, Instr::Arith8(Arith8Instr::AluR(AluOp::Sbc, Reg8::B))),
        0x99 => (1, Instr::Arith8(Arith8Instr::AluR(AluOp::Sbc, Reg8::C))),
        0x9a => (1, Instr::Arith8(Arith8Instr::AluR(AluOp::Sbc, Reg8::D))),
        0x9b => (1, Instr::Arith8(Arith8Instr::AluR(AluOp::Sbc, Reg8::E))),
        0x9c => (1, Instr::Arith8(Arith8Instr::AluR(AluOp::Sbc, Reg8::H))),
        0x9d => (1, Instr::Arith8(Arith8Instr::AluR(AluOp::Sbc, Reg8::L))),
        0x9e => (2, Instr::Arith8(Arith8Instr::AluMhl(AluOp::Sbc))),
        0x9f => (1, Instr::Arith8(Arith8Instr::AluR(AluOp::Sbc, Reg8::A))),
        0xa0 => (1, Instr::Arith8(Arith8Instr::AluR(AluOp::And, Reg8::B))),
        0xa1 => (1, Instr::Arith8(Arith8Instr::AluR(AluOp::And, Reg8::C))),
        0xa2 => (1, Instr::Arith8(Arith8Instr::AluR(AluOp::And, Reg8::D))),
        0xa3 => (1, Instr::Arith8(Arith8Instr::AluR(AluOp::And, Reg8::E))),
        0xa4 => (1, Instr::Arith8(Arith8Instr::AluR(AluOp::And, Reg8::H))),
        0xa5 => (1, Instr::Arith8(Arith8Instr::AluR(AluOp::And, Reg8::L))),
        0xa6 => (2, Instr::Arith8(Arith8Instr::AluMhl(AluOp::And))),
        0xa7 => (1, Instr::Arith8(Arith8Instr::AluR(AluOp::And, Reg8::A))),
        0xa8 => (1, Instr::Arith8(Arith8Instr::AluR(AluOp::Xor, Reg8::B))),
        0xa9 => (1, Instr::Arith8(Arith8Instr::AluR(AluOp::Xor, Reg8::C))),
        0xaa => (1, Instr::Arith8(Arith8Instr::AluR(AluOp::Xor, Reg8::D))),
        0xab => (1, Instr::Arith8(Arith8Instr::AluR(AluOp::Xor, Reg8::E))),
        0xac => (1, Instr::Arith8(Arith8Instr::AluR(AluOp::Xor, Reg8::H))),
        0xad => (1, Instr::Arith8(Arith8Instr::AluR(AluOp::Xor, Reg8::L))),
        0xae => (2, Instr::Arith8(Arith8Instr::AluMhl(AluOp::Xor))),
        0xaf => (1, Instr::Arith8(Arith8Instr::AluR(AluOp::Xor, Reg8::A))),
        0xb0 => (1, Instr::Arith8(Arith8Instr::AluR(AluOp::Or, Reg8::B))),
        0xb1 => (1, Instr::Arith8(Arith8Instr::AluR(AluOp::Or, Reg8::C))),
        0xb2 => (1, Instr::Arith8(Arith8Instr::AluR(AluOp::Or, Reg8::D))),
        0xb3 => (1, Instr::Arith8(Arith8Instr::AluR(AluOp::Or, Reg8::E))),
        0xb4 => (1, Instr::Arith8(Arith8Instr::AluR(AluOp::Or, Reg8::H))),
        0xb5 => (1, Instr::Arith8(Arith8Instr::AluR(AluOp::Or, Reg8::L))),
        0xb6 => (2, Instr::Arith8(Arith8Instr::AluMhl(AluOp::Or))),
        0xb7 => (1, Instr::Arith8(Arith8Instr::AluR(AluOp::Or, Reg8::A))),
        0xb8 => (1, Instr::Arith8(Arith8Instr::AluR(AluOp::Cp, Reg8::B))),
        0xb9 => (1, Instr::Arith8(Arith8Instr::AluR(AluOp::Cp, Reg8::C))),
        0xba => (1, Instr::Arith8(Arith8Instr::AluR(AluOp::Cp, Reg8::D))),
        0xbb => (1, Instr::Arith8(Arith8Instr::AluR(AluOp::Cp, Reg8::E))),
        0xbc => (1, Instr::Arith8(Arith8Instr::AluR(AluOp::Cp, Reg8::H))),
        0xbd => (1, Instr::Arith8(Arith8Instr::AluR(AluOp::Cp, Reg8::L))),
        0xbe => (2, Instr::Arith8(Arith8Instr::AluMhl(AluOp::Cp))),
        0xbf => (1, Instr::Arith8(Arith8Instr::AluR(AluOp::Cp, Reg8::A))),
        0xc0 => (2, Instr::Jump(JumpInstr::RetCc(Cond::NZ))),
        0xc1 => (3, Instr::Load16(Load16Instr::PopRr(Reg16::BC))),
        0xc2 => (3, Instr::Jump(JumpInstr::JpCcNn(Cond::NZ))),
        0xc3 => (3, Instr::Jump(JumpInstr::JpNn)),
        0xc4 => (3, Instr::Jump(JumpInstr::CallCcNn(Cond::NZ))),
        0xc5 => (4, Instr::Load16(Load16Instr::PushRr(Reg16::BC))),
        0xc6 => (2, Instr::Arith8(Arith8Instr::AluN(AluOp::Add))),
        0xc7 => (4, Instr::Jump(JumpInstr::Rst(0x00))),
        0xc8 => (2, Instr::Jump(JumpInstr::RetCc(Cond::Z))),
        0xc9 => (4, Instr::Jump(JumpInstr::Ret)),
        0xca => (3, Instr::Jump(JumpInstr::JpCcNn(Cond::Z))),
        0xcb => (0, Instr::Control(ControlInstr::Undefined)),
        0xcc => (3, Instr::Jump(JumpInstr::CallCcNn(Cond::Z))),
        0xcd => (6, Instr::Jump(JumpInstr::CallNn)),
        0xce => (2, Instr::Arith8(Arith8Instr::AluN(AluOp::Adc))),
        0xcf => (4, Instr::Jump(JumpInstr::Rst(0x08))),
        0xd0 => (2, Instr::Jump(JumpInstr::RetCc(Cond::NC))),
        0xd1 => (3, Instr::Load16(Load16Instr::PopRr(Reg16::DE))),
        0xd2 => (3, Instr::Jump(JumpInstr::JpCcNn(Cond::NC))),
        0xd3 => (1, Instr::Control(ControlInstr::Undefined)),
        0xd4 => (3, Instr::Jump(JumpInstr::CallCcNn(Cond::NC))),
        0xd5 => (4, Instr::Load16(Load16Instr::PushRr(Reg16::DE))),
        0xd6 => (2, Instr::Arith8(Arith8Instr::AluN(AluOp::Sub))),
        0xd7 => (4, Instr::Jump(JumpInstr::Rst(0x10))),
        0xd8 => (2, Instr::Jump(JumpInstr::RetCc(Cond::C))),
        0xd9 => (4, Instr::Jump(JumpInstr::Reti)),
        0xda => (3, Instr::Jump(JumpInstr::JpCcNn(Cond::C))),
        0xdb => (1, Instr::Control(ControlInstr::Undefined)),
        0xdc => (3, Instr::Jump(JumpInstr::CallCcNn(Cond::C))),
        0xdd => (1, Instr::Control(ControlInstr::Undefined)),
        0xde => (2, Instr::Arith8(Arith8Instr::AluN(AluOp::Sbc))),
        0xdf => (4, Instr::Jump(JumpInstr::Rst(0x18))),
        0xe0 => (3, Instr::Load8(Load8Instr::LdhMnA)),
        0xe1 => (3, Instr::Load16(Load16Instr::PopRr(Reg16::HL))),
        0xe2 => (2, Instr::Load8(Load8Instr::LdhMcA)),
        0xe3 => (1, Instr::Control(ControlInstr::Undefined)),
        0xe4 => (1, Instr::Control(ControlInstr::Undefined)),
        0xe5 => (4, Instr::Load16(Load16Instr::PushRr(Reg16::HL))),
        0xe6 => (2, Instr::Arith8(Arith8Instr::AluN(AluOp::And))),
        0xe7 => (4, Instr::Jump(JumpInstr::Rst(0x20))),
        0xe8 => (4, Instr::Arith16(Arith16Instr::AddSpSn)),
        0xe9 => (1, Instr::Jump(JumpInstr::JpHl)),
        0xea => (4, Instr::Load8(Load8Instr::LdMnnA)),
        0xeb => (1, Instr::Control(ControlInstr::Undefined)),
        0xec => (1, Instr::Control(ControlInstr::Undefined)),
        0xed => (1, Instr::Control(ControlInstr::Undefined)),
        0xee => (2, Instr::Arith8(Arith8Instr::AluN(AluOp::Xor))),
        0xef => (4, Instr::Jump(JumpInstr::Rst(0x28))),
        0xf0 => (3, Instr::Load8(Load8Instr::LdhAMn)),
        0xf1 => (3, Instr::Load16(Load16Instr::PopRr(Reg16::AF))),
        0xf2 => (2, Instr::Load8(Load8Instr::LdhAMc)),
        0xf3 => (1, Instr::Control(ControlInstr::Di)),
        0xf4 => (1, Instr::Control(ControlInstr::Undefined)),
        0xf5 => (4, Instr::Load16(Load16Instr::PushRr(Reg16::AF))),
        0xf6 => (2, Instr::Arith8(Arith8Instr::AluN(AluOp::Or))),
        0xf7 => (4, Instr::Jump(JumpInstr::Rst(0x30))),
        0xf8 => (3, Instr::Load16(Load16Instr::LdHlSpSn)),
        0xf9 => (2, Instr::Load16(Load16Instr::LdSpHl)),
        0xfa => (2, Instr::Load8(Load8Instr::LdAMnn)),
        0xfb => (1, Instr::Control(ControlInstr::Ei)),
        0xfc => (1, Instr::Control(ControlInstr::Undefined)),
        0xfd => (1, Instr::Control(ControlInstr::Undefined)),
        0xfe => (2, Instr::Arith8(Arith8Instr::AluN(AluOp::Cp))),
        _ => (4, Instr::Jump(JumpInstr::Rst(0x38))),
    }
}

/// Table of the 0xCB opcodes: the low 3 bits select the register
/// (6 is `[HL]`, which takes 4 machine cycles instead of 2), bits
/// [5:3] the operation or the bit number and bits [7:6] the kind of
/// operation
pub open spec fn spec_cb_opcode(op: u8) -> (u32, Instr) {
    let y = (op / 8) % 8;
    let z = op % 8;
    let delay: u32 = if z == 6 {
        4
    } else {
        2
    };
    let i = if op < 0x40 {
        if z == 6 {
            Instr::Bits(BitsInstr::ShiftMhl(spec_shift_of(y)))
        } else {
            Instr::Bits(BitsInstr::ShiftR(spec_shift_of(y), spec_reg_of(z)))
        }
    } else if op < 0x80 {
        if z == 6 {
            Instr::Bits(BitsInstr::BitMhl(y))
        } else {
            Instr::Bits(BitsInstr::BitR(y, spec_reg_of(z)))
        }
    } else if op < 0xc0 {
        if z == 6 {
            Instr::Bits(BitsInstr::ResMhl(y))
        } else {
            Instr::Bits(BitsInstr::ResR(y, spec_reg_of(z)))
        }
    } else {
        if z == 6 {
            Instr::Bits(BitsInstr::SetMhl(y))
        } else {
            Instr::Bits(BitsInstr::SetR(y, spec_reg_of(z)))
        }
    };
    (delay, i)
}

/// Delay and instruction of 0xCB opcode `op`
pub fn cb_opcode(op: u8) -> (r: (u32, Instr))
    ensures
        r == spec_cb_opcode(op),
        2 <= r.0 <= 4,
        !spec_is_unimplemented(r.1),
        spec_instr_ok(r.1),
{
    let y = (op / 8) % 8;
    let z = op % 8;
    let delay: u32 = if z == 6 {
        4
    } else {
        2
    };
    let i = if op < 0x40 {
        if z == 6 {
            Instr::Bits(BitsInstr::ShiftMhl(shift_of(y)))
        } else {
            Instr::Bits(BitsInstr::ShiftR(shift_of(y), reg_of(z)))
        }
    } else if op < 0x80 {
        if z == 6 {
            Instr::Bits(BitsInstr::BitMhl(y))
        } else {
            Instr::Bits(BitsInstr::BitR(y, reg_of(z)))
        }
    } else if op < 0xc0 {
        if z == 6 {
            Instr::Bits(BitsInstr::ResMhl(y))
        } else {
            Instr::Bits(BitsInstr::ResR(y, reg_of(z)))
        }
    } else {
        if z == 6 {
            Instr::Bits(BitsInstr::SetMhl(y))
        } else {
            Instr::Bits(BitsInstr::SetR(y, reg_of(z)))
        }
    };
    (delay, i)
}

/// Register selected by the 3 bit field `z` of an opcode (6 selects
/// `[HL]`, which is not a register)
pub open spec fn spec_reg_of(z: u8) -> Reg8 {
    if z == 0 {
        Reg8::B
    } else if z == 1 {
        Reg8::C
    } else if z == 2 {
        Reg8::D
    } else if z == 3 {
        Reg8::E
    } else if z == 4 {
        Reg8::H
    } else if z == 5 {
        Reg8::L
    } else {
        Reg8::A
    }
}

/// Register selected by the 3 bit field `z` of an opcode
pub fn reg_of(z: u8) -> (r: Reg8)
    ensures
        r == spec_reg_of(z),
{
    if z == 0 {
        Reg8::B
    } else if z == 1 {
        Reg8::C
    } else if z == 2 {
        Reg8::D
    } else if z == 3 {
        Reg8::E
    } else if z == 4 {
        Reg8::H
    } else if z == 5 {
        Reg8::L
    } else {
        Reg8::A
    }
}

/// `true` for the opcodes that have no implementation
pub open spec fn spec_is_unimplemented(i: Instr) -> bool {
    i matches Instr::Control(ControlInstr::Unimplemented(_))
}

/// Fetch of the next instruction: its opcode at `pc`, and for the
/// 0xCB prefix the byte that follows it. The state has `pc` moved
/// past the bytes read.
pub open spec fn spec_next_instruction(s: CpuView) -> (CpuView, (u32, Instr)) {
    let (s1, op) = spec_next_byte(s);
    if op == 0xcb {
        let (s2, op2) = spec_next_byte(s1);
        (s2, spec_cb_opcode(op2))
    } else {
        (s1, spec_opcode(op))
    }
}

/// Retrieve the next instruction to be executed: the number of
/// machine cycles it takes and what it does
pub fn next_instruction(cpu: &mut Cpu) -> (r: (u32, Instr))
    requires
        old(cpu).wf(),
    ensures
        final(cpu).wf(),
        final(cpu)@.instruction_delay == old(cpu)@.instruction_delay,
        (final(cpu)@, r) === spec_next_instruction(old(cpu)@),
        r.0 <= 6,
        r.0 == 0 <==> spec_is_unimplemented(r.1),
        spec_instr_ok(r.1),
{
    let op = next_byte(cpu);
    if op == 0xcb {
        // 0xCB introduces a two-byte bitops opcode
        let op2 = next_byte(cpu);
        cb_opcode(op2)
    } else {
        opcode(op)
    }
}

} // verus!
