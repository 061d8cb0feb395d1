//! Emulation of instructions prefixed by 0xCB. They are all
//! operations dealing with bit manipulation (rotations, shifts, bit
//! set, bit clear...)

use vstd::prelude::*;
use crate::bits::{bit_set, bit_clear, bit_test};
use crate::io::spec_read;
use crate::cpu::{Cpu, CpuView, Flags, Reg8, Reg16, spec_get8, spec_set8, spec_get16, with_flags,
    spec_store, flag_bit};

verus! {

/// Rotations, shifts and nibble swap of the 0xCB opcodes
#[derive(Clone, Copy, PartialEq, Eq, Structural, Debug)]
pub enum ShiftOp {
    Rlc,
    Rrc,
    Rl,
    Rr,
    Sla,
    Sra,
    Swap,
    Srl,
}

/// Result and new carry of shift operation `op` on `v` with carry
/// flag `carry`
pub open spec fn spec_shift(op: ShiftOp, v: u8, carry: bool) -> (u8, bool) {
    match op {
        ShiftOp::Rlc => (((v % 128) * 2 + v / 128) as u8, v >= 128),
        ShiftOp::Rrc => ((v / 2 + (v % 2) * 128) as u8, v % 2 == 1),
        ShiftOp::Rl => (((v % 128) * 2 + flag_bit(carry)) as u8, v >= 128),
        ShiftOp::Rr => ((v / 2 + flag_bit(carry) * 128) as u8, v % 2 == 1),
        ShiftOp::Sla => (((v % 128) * 2) as u8, v >= 128),
        ShiftOp::Sra => ((v / 2 + (v / 128) * 128) as u8, v % 2 == 1),
        ShiftOp::Swap => (((v % 16) * 16 + v / 16) as u8, carry),
        ShiftOp::Srl => ((v / 2) as u8, v % 2 == 1),
    }
}

/// Flags after shift operation `op` on `v`: the zero flag tells if
/// the result is 0, the nibble swap leaves the other flags untouched
pub open spec fn spec_shift_flags(op: ShiftOp, v: u8, f: Flags) -> Flags {
    let (r, c) = spec_shift(op, v, f.c);
    if op == ShiftOp::Swap {
        Flags { z: v == 0, ..f }
    } else {
        Flags { z: r == 0, n: false, h: false, c: c }
    }
}

/// Shift operation `op` on register `r`
#[verifier::opaque]
pub open spec fn spec_shift_r(s: CpuView, op: ShiftOp, r: Reg8) -> CpuView {
    let v = spec_get8(s, r);
    spec_set8(with_flags(s, spec_shift_flags(op, v, s.flags)), r, spec_shift(op, v, s.flags.c).0)
}

/// Shift operation `op` on `[HL]`
#[verifier::opaque]
pub open spec fn spec_shift_mhl(s: CpuView, op: ShiftOp) -> CpuView {
    let hl = spec_get16(s, Reg16::HL);
    let v = spec_read(s.inter, hl);
    spec_store(with_flags(s, spec_shift_flags(op, v, s.flags)), hl, spec_shift(op, v, s.flags.c).0)
}

/// Flags after testing bit `b` of `v`: the zero flag is set if the
/// bit is 0
pub open spec fn spec_bit_flags(v: u8, b: u8, f: Flags) -> Flags {
    Flags { z: !bit_test(v, b), n: false, h: true, c: f.c }
}

/// Test bit `b` of register `r`
#[verifier::opaque]
pub open spec fn spec_bit_r(s: CpuView, b: u8, r: Reg8) -> CpuView {
    with_flags(s, spec_bit_flags(spec_get8(s, r), b, s.flags))
}

/// Test bit `b` of `[HL]`
#[verifier::opaque]
pub open spec fn spec_bit_mhl(s: CpuView, b: u8) -> CpuView {
    with_flags(s, spec_bit_flags(spec_read(s.inter, spec_get16(s, Reg16::HL)), b, s.flags))
}

/// Clear bit `b` of register `r`
#[verifier::opaque]
pub open spec fn spec_res_r(s: CpuView, b: u8, r: Reg8) -> CpuView {
    spec_set8(s, r, bit_clear(spec_get8(s, r), b))
}

/// Clear bit `b` of `[HL]`
#[verifier::opaque]
pub open spec fn spec_res_mhl(s: CpuView, b: u8) -> CpuView {
    let hl = spec_get16(s, Reg16::HL);
    spec_store(s, hl, bit_clear(spec_read(s.inter, hl), b))
}

/// Set bit `b` of register `r`
#[verifier::opaque]
pub open spec fn spec_set_r(s: CpuView, b: u8, r: Reg8) -> CpuView {
    spec_set8(s, r, bit_set(spec_get8(s, r), b))
}

/// Set bit `b` of `[HL]`
#[verifier::opaque]
pub open spec fn spec_set_mhl(s: CpuView, b: u8) -> CpuView {
    let hl = spec_get16(s, Reg16::HL);
    spec_store(s, hl, bit_set(spec_read(s.inter, hl), b))
}

/// Result and new carry of shift operation `op` on `v`
fn shift_value(op: ShiftOp, v: u8, carry: bool) -> (r: (u8, bool))
    ensures
        r == spec_shift(op, v, carry),
{
    let old: u8 = if carry {
        1
    } else {
        0
    };
    match op {
        ShiftOp::Rlc => ((v % 128) * 2 + v / 128, v >= 128),
        ShiftOp::Rrc => (v / 2 + (v % 2) * 128, v % 2 == 1),
        ShiftOp::Rl => ((v % 128) * 2 + old, v >= 128),
        ShiftOp::Rr => (v / 2 + old * 128, v % 2 == 1),
        ShiftOp::Sla => ((v % 128) * 2, v >= 128),
        ShiftOp::Sra => (v / 2 + (v / 128) * 128, v % 2 == 1),
        ShiftOp::Swap => ((v % 16) * 16 + v / 16, carry),
        ShiftOp::Srl => (v / 2, v % 2 == 1),
    }
}

/// Compute shift operation `op` on `v` and update the CPU flags
fn shift(cpu: &mut Cpu, op: ShiftOp, v: u8) -> (r: u8)
    requires
        old(cpu).wf(),
    ensures
        final(cpu).wf(),
        r == spec_shift(op, v, old(cpu)@.flags.c).0,
        final(cpu)@ === with_flags(old(cpu)@, spec_shift_flags(op, v, old(cpu)@.flags)),
{
    let f = cpu.flags();
    let (r, c) = shift_value(op, v, f.c);
    let nf = if op == ShiftOp::Swap {
        Flags { z: v == 0, ..f }
    } else {
        Flags { z: r == 0, n: false, h: false, c: c }
    };
    cpu.set_flags(nf);
    r
}

/// Shift operation `op` on register `r`
pub(crate) fn shift_r(cpu: &mut Cpu, op: ShiftOp, r: Reg8)
    requires
        old(cpu).wf(),
    ensures
        final(cpu).wf(),
        final(cpu)@ === spec_shift_r(old(cpu)@, op, r),
{
    proof {
        reveal(spec_shift_r);
    }
    let v = cpu.get8(r);
    let res = shift(cpu, op, v);
    cpu.set8(r, res);
}

/// Shift operation `op` on `[HL]`
pub(crate) fn shift_mhl(cpu: &mut Cpu, op: ShiftOp)
    requires
        old(cpu).wf(),
    ensures
        final(cpu).wf(),
        final(cpu)@ === spec_shift_mhl(old(cpu)@, op),
{
    proof {
        reveal(spec_shift_mhl);
    }
    let hl = cpu.hl();
    let v = cpu.fetch_byte(hl);
    let res = shift(cpu, op, v);
    cpu.store_byte(hl, res);
}

/// Helper function to test one bit in a u8. Return true if bit is 0.
fn bit_zero(val: u8, bit: u8) -> (r: bool)
    requires
        bit < 8,
    ensures
        r == !bit_test(val, bit),
{
    (val & (1u8 << bit)) == 0
}

/// Test bit `b` of register `r`
pub(crate) fn bit_r(cpu: &mut Cpu, b: u8, r: Reg8)
    requires
        old(cpu).wf(),
        b < 8,
    ensures
        final(cpu).wf(),
        final(cpu)@ === spec_bit_r(old(cpu)@, b, r),
{
    proof {
        reveal(spec_bit_r);
    }
    let v = cpu.get8(r);
    let c = cpu.carry();
    cpu.set_flags(Flags { z: bit_zero(v, b), n: false, h: true, c: c });
}

/// Test bit `b` of `[HL]`
pub(crate) fn bit_mhl(cpu: &mut Cpu, b: u8)
    requires
        old(cpu).wf(),
        b < 8,
    ensures
        final(cpu).wf(),
        final(cpu)@ === spec_bit_mhl(old(cpu)@, b),
{
    proof {
        reveal(spec_bit_mhl);
    }
    let hl = cpu.hl();
    let v = cpu.fetch_byte(hl);
    let c = cpu.carry();
    cpu.set_flags(Flags { z: bit_zero(v, b), n: false, h: true, c: c });
}

/// Helper function to clear one bit in a u8
fn res(val: u8, bit: u8) -> (r: u8)
    requires
        bit < 8,
    ensures
        r == bit_clear(val, bit),
{
    val & !(1u8 << bit)
}

/// Helper function to set one bit in a u8
fn set(val: u8, bit: u8) -> (r: u8)
    requires
        bit < 8,
    ensures
        r == bit_set(val, bit),
{
    val | (1u8 << bit)
}

/// Clear bit `b` of register `r`
pub(crate) fn res_r(cpu: &mut Cpu, b: u8, r: Reg8)
    requires
        old(cpu).wf(),
        b < 8,
    ensures
        final(cpu).wf(),
        final(cpu)@ === spec_res_r(old(cpu)@, b, r),
{
    proof {
        reveal(spec_res_r);
    }
    let v = cpu.get8(r);
    cpu.set8(r, res(v, b));
}

/// Clear bit `b` of `[HL]`
pub(crate) fn res_mhl(cpu: &mut Cpu, b: u8)
    requires
        old(cpu).wf(),
        b < 8,
    ensures
        final(cpu).wf(),
        final(cpu)@ === spec_res_mhl(old(cpu)@, b),
{
    proof {
        reveal(spec_res_mhl);
    }
    let hl = cpu.hl();
    let v = cpu.fetch_byte(hl);
    cpu.store_byte(hl, res(v, b));
}

/// Set bit `b` of register `r`
pub(crate) fn set_r(cpu: &mut Cpu, b: u8, r: Reg8)
    requires
        old(cpu).wf(),
        b < 8,
    ensures
        final(cpu).wf(),
        final(cpu)@ === spec_set_r(old(cpu)@, b, r),
{
    proof {
        reveal(spec_set_r);
    }
    let v = cpu.get8(r);
    cpu.set8(r, set(v, b));
}

/// Set bit `b` of `[HL]`
pub(crate) fn set_mhl(cpu: &mut Cpu, b: u8)
    requires
        old(cpu).wf(),
        b < 8,
    ensures
        final(cpu).wf(),
        final(cpu)@ === spec_set_mhl(old(cpu)@, b),
{
    proof {
        reveal(spec_set_mhl);
    }
    let hl = cpu.hl();
    let v = cpu.fetch_byte(hl);
    cpu.store_byte(hl, set(v, b));
}

/// Shift operation selected by the 3 bit field `y` of a 0xCB opcode
pub open spec fn spec_shift_of(y: u8) -> ShiftOp {
    if y == 0 {
        ShiftOp::Rlc
    } else if y == 1 {
        ShiftOp::Rrc
    } else if y == 2 {
        ShiftOp::Rl
    } else if y == 3 {
        ShiftOp::Rr
    } else if y == 4 {
        ShiftOp::Sla
    } else if y == 5 {
        ShiftOp::Sra
    } else if y == 6 {
        ShiftOp::Swap
    } else {
        ShiftOp::Srl
    }
}

/// Shift operation selected by the 3 bit field `y` of a 0xCB opcode
pub fn shift_of(y: u8) -> (op: ShiftOp)
    ensures
        op == spec_shift_of(y),
{
    if y == 0 {
        ShiftOp::Rlc
    } else if y == 1 {
        ShiftOp::Rrc
    } else if y == 2 {
        ShiftOp::Rl
    } else if y == 3 {
        ShiftOp::Rr
    } else if y == 4 {
        ShiftOp::Sla
    } else if y == 5 {
        ShiftOp::Sra
    } else if y == 6 {
        ShiftOp::Swap
    } else {
        ShiftOp::Srl
    }
}

} // verus!
