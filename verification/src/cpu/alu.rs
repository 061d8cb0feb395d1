//! What the arithmetic, logic and rotation instructions compute

use vstd::prelude::*;
use crate::cpu::{CpuView, Reg8, spec_get8, spec_set8};
use crate::cpu::instructions::{AluOp, RotA, spec_alu, spec_alu_r, spec_inc_val, spec_dec_val,
    spec_rot};
use crate::cpu::bitops::{ShiftOp, spec_shift, spec_shift_flags, spec_bit_flags};
use crate::cpu::Flags;

verus! {

/// 1 when `b` holds, 0 otherwise
pub open spec fn bit_value(b: bool) -> int {
    if b {
        1
    } else {
        0
    }
}

/// Additions: `ADD` gives the sum of `A` and the operand modulo 256,
/// `ADC` adds the carry flag on top. The carry flag tells whether the
/// full sum reached 256, the half carry whether the low nibbles (with
/// the incoming carry) reached 16, Z whether the result is 0; N is
/// cleared. `ADC` with the carry set gives one more than `ADD`.
pub proof fn lemma_alu_additions(a: u8, v: u8, carry: bool)
    ensures
        spec_alu(AluOp::Add, a, v, carry).0 + 256 * bit_value(spec_alu(AluOp::Add, a, v, carry).1.c)
            == a + v,
        spec_alu(AluOp::Add, a, v, carry).1.h == (a % 16 + v % 16 >= 16),
        spec_alu(AluOp::Add, a, v, carry).1.z == (spec_alu(AluOp::Add, a, v, carry).0 == 0),
        !spec_alu(AluOp::Add, a, v, carry).1.n,
        spec_alu(AluOp::Adc, a, v, carry).0 + 256 * bit_value(spec_alu(AluOp::Adc, a, v, carry).1.c)
            == a + v + bit_value(carry),
        spec_alu(AluOp::Adc, a, v, carry).1.h == (a % 16 + v % 16 + bit_value(carry) >= 16),
        spec_alu(AluOp::Adc, a, v, carry).1.z == (spec_alu(AluOp::Adc, a, v, carry).0 == 0),
        !spec_alu(AluOp::Adc, a, v, carry).1.n,
        carry ==> spec_alu(AluOp::Adc, a, v, carry).0 == (spec_alu(AluOp::Add, a, v, carry).0 + 1)
            % 256,
        !carry ==> spec_alu(AluOp::Adc, a, v, carry) == spec_alu(AluOp::Add, a, v, carry),
{
}

/// Subtractions: `SUB` gives `A` minus the operand modulo 256, `SBC`
/// also takes the carry flag away. The carry flag tells whether the
/// subtraction borrowed, the half carry whether the low nibble
/// borrowed, Z whether the result is 0; N is set. `CP` sets the flags
/// of `SUB` and leaves `A` alone. `SBC` with the carry set gives one
/// less than `SUB`.
pub proof fn lemma_alu_subtractions(a: u8, v: u8, carry: bool)
    ensures
        spec_alu(AluOp::Sub, a, v, carry).0 + v == a + 256 * bit_value(
            spec_alu(AluOp::Sub, a, v, carry).1.c,
        ),
        spec_alu(AluOp::Sub, a, v, carry).1.c == (a < v),
        spec_alu(AluOp::Sub, a, v, carry).1.h == (a % 16 < v % 16),
        spec_alu(AluOp::Sub, a, v, carry).1.z == (a == v),
        spec_alu(AluOp::Sub, a, v, carry).1.n,
        spec_alu(AluOp::Sbc, a, v, carry).0 + v + bit_value(carry) == a + 256 * bit_value(
            spec_alu(AluOp::Sbc, a, v, carry).1.c,
        ),
        spec_alu(AluOp::Sbc, a, v, carry).1.c == (a < v + bit_value(carry)),
        spec_alu(AluOp::Sbc, a, v, carry).1.h == (a % 16 < v % 16 + bit_value(carry)),
        spec_alu(AluOp::Sbc, a, v, carry).1.z == (spec_alu(AluOp::Sbc, a, v, carry).0 == 0),
        spec_alu(AluOp::Sbc, a, v, carry).1.n,
        spec_alu(AluOp::Cp, a, v, carry).1 == spec_alu(AluOp::Sub, a, v, carry).1,
        carry ==> (spec_alu(AluOp::Sbc, a, v, carry).0 + 1) % 256 == spec_alu(
            AluOp::Sub,
            a,
            v,
            carry,
        ).0,
        !carry ==> spec_alu(AluOp::Sbc, a, v, carry) == spec_alu(AluOp::Sub, a, v, carry),
{
}

/// Logic operations work bit by bit; Z tells whether the result is 0,
/// N and C are cleared and H is set by `AND` only.
pub proof fn lemma_alu_logic(a: u8, v: u8, carry: bool)
    ensures
        spec_alu(AluOp::And, a, v, carry).0 == a & v,
        spec_alu(AluOp::Or, a, v, carry).0 == a | v,
        spec_alu(AluOp::Xor, a, v, carry).0 == a ^ v,
        spec_alu(AluOp::And, a, v, carry).1.z == (a & v == 0),
        spec_alu(AluOp::Or, a, v, carry).1.z == (a | v == 0),
        spec_alu(AluOp::Xor, a, v, carry).1.z == (a == v),
        spec_alu(AluOp::And, a, v, carry).1.h,
        !spec_alu(AluOp::Or, a, v, carry).1.h && !spec_alu(AluOp::Xor, a, v, carry).1.h,
        !spec_alu(AluOp::And, a, v, carry).1.c && !spec_alu(AluOp::Or, a, v, carry).1.c
            && !spec_alu(AluOp::Xor, a, v, carry).1.c,
        !spec_alu(AluOp::And, a, v, carry).1.n && !spec_alu(AluOp::Or, a, v, carry).1.n
            && !spec_alu(AluOp::Xor, a, v, carry).1.n,
{
    assert((a ^ v == 0) == (a == v)) by (bit_vector);
}

/// An operation on `A` and register `r`: `A` receives `A + r`
/// (`ADD`), `A + r + carry` (`ADC`), `A - r` (`SUB`), `A - r - carry`
/// (`SBC`) modulo 256, or the bitwise combination; `CP` leaves `A`
/// alone. The flags are those of the operation and the other
/// registers don't change.
pub proof fn lemma_alu_r(s: CpuView, op: AluOp, r: Reg8)
    ensures
        ({
            let a = s.regs.a as int;
            let v = spec_get8(s, r) as int;
            let c = bit_value(s.flags.c);
            let res = spec_get8(spec_alu_r(s, op, r), Reg8::A) as int;
            &&& op == AluOp::Add ==> res == (a + v) % 256
            &&& op == AluOp::Adc ==> res == (a + v + c) % 256
            &&& op == AluOp::Sub ==> res == (a - v + 256) % 256
            &&& op == AluOp::Sbc ==> res == (a - v - c + 512) % 256
            &&& op == AluOp::Cp ==> res == a
        }),
        spec_alu_r(s, op, r).flags == spec_alu(op, s.regs.a, spec_get8(s, r), s.flags.c).1,
        op != AluOp::Cp ==> spec_get8(spec_alu_r(s, op, r), Reg8::A) == spec_alu(
            op,
            s.regs.a,
            spec_get8(s, r),
            s.flags.c,
        ).0,
        spec_alu_r(s, op, r).regs.pc == s.regs.pc,
        spec_alu_r(s, op, r).regs.sp == s.regs.sp,
        spec_alu_r(s, op, r).inter == s.inter,
{
    reveal(spec_alu_r);
    reveal(spec_set8);
    reveal(spec_get8);
}

/// `INC` adds one modulo 256 and `DEC` takes one away, the half carry
/// telling whether the low nibble carried or borrowed; neither changes
/// the carry flag. `DEC` undoes `INC`.
pub proof fn lemma_inc_dec(v: u8, f: crate::cpu::Flags)
    ensures
        spec_inc_val(v, f).0 == (v + 1) % 256,
        spec_inc_val(v, f).1.z == (v == 255),
        spec_inc_val(v, f).1.h == (v % 16 == 15),
        !spec_inc_val(v, f).1.n,
        spec_inc_val(v, f).1.c == f.c,
        (spec_dec_val(v, f).0 + 1) % 256 == v,
        spec_dec_val(v, f).1.z == (v == 1),
        spec_dec_val(v, f).1.h == (v % 16 == 0),
        spec_dec_val(v, f).1.n,
        spec_dec_val(v, f).1.c == f.c,
        spec_dec_val(spec_inc_val(v, f).0, f).0 == v,
{
}

/// Rotations of `A`: the bit that leaves goes into the carry flag;
/// `RLCA`/`RRCA` bring it back in at the other end, `RLA`/`RRA` bring in
/// the old carry. A left rotation is undone by the right rotation of
/// the same kind.
pub proof fn lemma_rotations(a: u8, carry: bool)
    ensures
        spec_rot(RotA::Rlca, a, carry).1 == (a >= 128),
        spec_rot(RotA::Rla, a, carry).1 == (a >= 128),
        spec_rot(RotA::Rrca, a, carry).1 == (a % 2 == 1),
        spec_rot(RotA::Rra, a, carry).1 == (a % 2 == 1),
        spec_rot(RotA::Rlca, a, carry).0 == (2 * a + bit_value(a >= 128)) % 256,
        spec_rot(RotA::Rla, a, carry).0 == (2 * a + bit_value(carry)) % 256,
        spec_rot(RotA::Rrca, a, carry).0 == a / 2 + 128 * (a % 2),
        spec_rot(RotA::Rra, a, carry).0 == a / 2 + 128 * bit_value(carry),
        spec_rot(RotA::Rrca, spec_rot(RotA::Rlca, a, carry).0, carry).0 == a,
        spec_rot(RotA::Rra, spec_rot(RotA::Rla, a, carry).0, spec_rot(RotA::Rla, a, carry).1) == (
        a,
        carry,
        ),
{
}

/// The 0xCB shifts: the bit that leaves goes into the carry flag.
/// `RLC`/`RRC` rotate, `RL`/`RR` rotate through the carry, `SLA`
/// shifts a 0 in, `SRA` keeps the sign bit, `SRL` shifts a 0 in from
/// the left, `SWAP` exchanges the nibbles and keeps the carry. Each
/// right rotation undoes the left one of the same kind, and swapping
/// twice gives the value back. Z tells whether the result is 0.
pub proof fn lemma_shifts(v: u8, carry: bool, f: Flags)
    ensures
        spec_shift(ShiftOp::Rlc, v, carry).0 == (2 * v + bit_value(v >= 128)) % 256,
        spec_shift(ShiftOp::Rlc, v, carry).1 == (v >= 128),
        spec_shift(ShiftOp::Rrc, v, carry).0 == v / 2 + 128 * (v % 2),
        spec_shift(ShiftOp::Rrc, v, carry).1 == (v % 2 == 1),
        spec_shift(ShiftOp::Rl, v, carry).0 == (2 * v + bit_value(carry)) % 256,
        spec_shift(ShiftOp::Rl, v, carry).1 == (v >= 128),
        spec_shift(ShiftOp::Rr, v, carry).0 == v / 2 + 128 * bit_value(carry),
        spec_shift(ShiftOp::Rr, v, carry).1 == (v % 2 == 1),
        spec_shift(ShiftOp::Sla, v, carry).0 == (2 * v) % 256,
        spec_shift(ShiftOp::Sla, v, carry).1 == (v >= 128),
        spec_shift(ShiftOp::Sra, v, carry).0 == v / 2 + 128 * (v / 128),
        spec_shift(ShiftOp::Sra, v, carry).1 == (v % 2 == 1),
        spec_shift(ShiftOp::Srl, v, carry).0 == v / 2,
        spec_shift(ShiftOp::Srl, v, carry).1 == (v % 2 == 1),
        spec_shift(ShiftOp::Swap, v, carry).0 == 16 * (v % 16) + v / 16,
        spec_shift(ShiftOp::Swap, v, carry).1 == (carry),
        spec_shift(ShiftOp::Rrc, spec_shift(ShiftOp::Rlc, v, carry).0, carry).0 == v,
        spec_shift(ShiftOp::Rr, spec_shift(ShiftOp::Rl, v, carry).0, spec_shift(ShiftOp::Rl, v, carry).1)
            == (v, carry),
        spec_shift(ShiftOp::Swap, spec_shift(ShiftOp::Swap, v, carry).0, carry).0 == v,
        forall|op: ShiftOp| #[trigger] spec_shift_flags(op, v, f).z == (spec_shift(op, v, f.c).0 == 0),
        forall|op: ShiftOp|
            op != ShiftOp::Swap ==> #[trigger] spec_shift_flags(op, v, f).c == spec_shift(op, v, f.c).1,
{
}

/// `BIT b` sets Z exactly when bit `b` of the value is 0, clears N,
/// sets H and keeps the carry.
pub proof fn lemma_bit_test(v: u8, b: u8, f: Flags)
    requires
        b < 8,
    ensures
        spec_bit_flags(v, b, f).z == ((v >> b) & 1 == 0),
        !spec_bit_flags(v, b, f).n,
        spec_bit_flags(v, b, f).h,
        spec_bit_flags(v, b, f).c == f.c,
{
    assert((v & (1u8 << b) != 0) == ((v >> b) & 1 != 0)) by (bit_vector)
        requires
            b < 8,
    ;
}

} // verus!
