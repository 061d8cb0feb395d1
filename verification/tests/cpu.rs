use gb_rs::cartridge::Cartridge;
use gb_rs::cpu::{Cpu, CpuError};
use gb_rs::gpu::Gpu;
use gb_rs::io::Interconnect;
use gb_rs::spu::Spu;

/// A CPU running `program` from 0x100 on a plain 32KB ROM
fn cpu_with(program: &[u8]) -> Cpu {
    let mut rom = vec![0u8; 0x8000];
    rom[0x100..0x100 + program.len()].copy_from_slice(program);
    assert!(Cartridge::valid_header(&rom));
    let cart = Cartridge::from_rom(rom);
    Cpu::new(Interconnect::new(cart, Gpu::new(), Spu::new()))
}

/// Run one instruction that takes `cycles` machine cycles
fn exec(cpu: &mut Cpu, cycles: u32) {
    assert_eq!(cpu.step(), Ok(()));
    for _ in 0..(cycles * 4 - 1) {
        assert_eq!(cpu.step(), Ok(()));
    }
}

#[test]
fn cpu_power_up_registers() {
    let cpu = cpu_with(&[]);
    assert_eq!(cpu.pc(), 0x100);
    assert_eq!(cpu.sp(), 0xfff2);
    assert_eq!(cpu.a(), 0x01);
    assert_eq!(cpu.bc(), 0x0013);
    assert_eq!(cpu.de(), 0x00d8);
    assert_eq!(cpu.hl(), 0x014d);
    // Z, H and C set
    assert_eq!(cpu.f(), 0xb0);
}

#[test]
fn cpu_load_immediate() {
    // LD A, 0x42
    let mut cpu = cpu_with(&[0x3e, 0x42]);
    exec(&mut cpu, 2);
    assert_eq!(cpu.a(), 0x42);
    assert_eq!(cpu.pc(), 0x102);
}

#[test]
fn cpu_push_pop() {
    // LD BC, 0x1234; PUSH BC; POP DE
    let mut cpu = cpu_with(&[0x01, 0x34, 0x12, 0xc5, 0xd1]);
    exec(&mut cpu, 3);
    assert_eq!(cpu.bc(), 0x1234);
    exec(&mut cpu, 4);
    assert_eq!(cpu.sp(), 0xfff0);
    exec(&mut cpu, 3);
    assert_eq!(cpu.de(), 0x1234);
    assert_eq!(cpu.sp(), 0xfff2);
}

#[test]
fn cpu_call_ret() {
    // CALL 0x0200 ... at 0x0200: RET
    let mut program = vec![0u8; 0x101];
    program[0] = 0xcd;
    program[1] = 0x00;
    program[2] = 0x02;
    program[0x100] = 0xc9;
    let mut cpu = cpu_with(&program);
    exec(&mut cpu, 6);
    assert_eq!(cpu.pc(), 0x200);
    assert_eq!(cpu.sp(), 0xfff0);
    exec(&mut cpu, 4);
    assert_eq!(cpu.pc(), 0x103);
    assert_eq!(cpu.sp(), 0xfff2);
}

#[test]
fn cpu_add_flags() {
    // LD A, 0x0f; ADD A, 0x01
    let mut cpu = cpu_with(&[0x3e, 0x0f, 0xc6, 0x01]);
    exec(&mut cpu, 2);
    exec(&mut cpu, 2);
    assert_eq!(cpu.a(), 0x10);
    assert!(!cpu.zero());
    assert!(!cpu.substract());
    assert!(cpu.halfcarry());
    assert!(!cpu.carry());
    // ADD A, 0xf0 carries out to 0
    let mut cpu = cpu_with(&[0x3e, 0x10, 0xc6, 0xf0]);
    exec(&mut cpu, 2);
    exec(&mut cpu, 2);
    assert_eq!(cpu.a(), 0x00);
    assert!(cpu.zero());
    assert!(cpu.carry());
}

#[test]
fn cpu_xor_a_clears() {
    // XOR A, A
    let mut cpu = cpu_with(&[0xaf]);
    exec(&mut cpu, 1);
    assert_eq!(cpu.a(), 0);
    assert_eq!(cpu.f(), 0x80);
}

#[test]
fn cpu_memory_store_load() {
    // LD HL, 0xc000; LD A, 0x42; LD [HL], A; LD A, 0x00; LD A, [HL]
    let mut cpu = cpu_with(&[0x21, 0x00, 0xc0, 0x3e, 0x42, 0x77, 0x3e, 0x00, 0x7e]);
    exec(&mut cpu, 3);
    exec(&mut cpu, 2);
    exec(&mut cpu, 2);
    exec(&mut cpu, 2);
    assert_eq!(cpu.a(), 0);
    exec(&mut cpu, 2);
    assert_eq!(cpu.a(), 0x42);
    assert_eq!(cpu.fetch_byte(0xc000), 0x42);
    // The echo of the work RAM reads the same byte
    assert_eq!(cpu.fetch_byte(0xe000), 0x42);
}

#[test]
fn cpu_bit_instruction() {
    // LD A, 0x80; BIT 7, A; BIT 0, A
    let mut cpu = cpu_with(&[0x3e, 0x80, 0xcb, 0x7f, 0xcb, 0x47]);
    exec(&mut cpu, 2);
    exec(&mut cpu, 2);
    assert!(!cpu.zero());
    assert!(cpu.halfcarry());
    exec(&mut cpu, 2);
    assert!(cpu.zero());
}

#[test]
fn cpu_relative_jump() {
    // JR -2 loops on itself
    let mut cpu = cpu_with(&[0x18, 0xfe]);
    exec(&mut cpu, 3);
    assert_eq!(cpu.pc(), 0x100);
}

#[test]
fn cpu_unimplemented_opcode() {
    // DAA has no implementation
    let mut cpu = cpu_with(&[0x27]);
    assert_eq!(cpu.step(), Err(CpuError::Unimplemented(0x27)));
}

#[test]
fn cpu_stop_fails() {
    // STOP
    let mut cpu = cpu_with(&[0x10, 0x00]);
    assert_eq!(cpu.step(), Err(CpuError::Stopped));
    assert_eq!(cpu.pc(), 0x102);
}

#[test]
fn cpu_halt_waits() {
    // DI; HALT; then the CPU waits without moving on
    let mut cpu = cpu_with(&[0xf3, 0x76, 0x00]);
    exec(&mut cpu, 1);
    assert!(!cpu.iten());
    exec(&mut cpu, 1);
    assert!(cpu.halted());
    assert_eq!(cpu.pc(), 0x102);
    for _ in 0..100 {
        assert_eq!(cpu.step(), Ok(()));
    }
    assert_eq!(cpu.pc(), 0x102);
}

#[test]
fn cpu_f_register_low_nibble() {
    let mut cpu = cpu_with(&[]);
    cpu.set_f(0xff);
    assert_eq!(cpu.f(), 0xf0);
    cpu.set_af(0x1234);
    assert_eq!(cpu.af(), 0x1230);
}

#[test]
fn cpu_register_pairs() {
    let mut cpu = cpu_with(&[]);
    cpu.set_bc(0xbeef);
    assert_eq!(cpu.b(), 0xbe);
    assert_eq!(cpu.c(), 0xef);
    cpu.set_h(0x12);
    cpu.set_l(0x34);
    assert_eq!(cpu.hl(), 0x1234);
}

#[test]
fn cpu_stack_words() {
    let mut cpu = cpu_with(&[]);
    cpu.push_word(0xabcd);
    assert_eq!(cpu.sp(), 0xfff0);
    assert_eq!(cpu.pop_word(), 0xabcd);
    assert_eq!(cpu.sp(), 0xfff2);
}

#[test]
fn cpu_rlca_flags() {
    // LD A, 0x80; RLCA: C gets the rotated bit, Z N H are cleared
    let mut cpu = cpu_with(&[0x3e, 0x80, 0x07]);
    exec(&mut cpu, 2);
    exec(&mut cpu, 1);
    assert_eq!(cpu.a(), 0x01);
    assert!(cpu.carry());
    assert!(!cpu.zero());
    assert!(!cpu.substract());
    assert!(!cpu.halfcarry());
    // XOR A, A; RLCA: the result is 0 but Z is cleared anyway
    let mut cpu = cpu_with(&[0xaf, 0x07]);
    exec(&mut cpu, 1);
    assert!(cpu.zero());
    exec(&mut cpu, 1);
    assert_eq!(cpu.a(), 0x00);
    assert!(!cpu.zero());
    assert!(!cpu.carry());
}

#[test]
fn cpu_add_sp_flags_on_low_byte() {
    // LD SP, 0x00ff; ADD SP, 1: carry and half carry out of the low
    // byte, N cleared, Z (set at power up) untouched
    let mut cpu = cpu_with(&[0x31, 0xff, 0x00, 0xe8, 0x01]);
    exec(&mut cpu, 3);
    exec(&mut cpu, 4);
    assert_eq!(cpu.sp(), 0x0100);
    assert!(cpu.carry());
    assert!(cpu.halfcarry());
    assert!(cpu.zero());
    assert!(!cpu.substract());
    // LD SP, 0x1000; LD HL, SP-1: borrow in the high byte doesn't
    // count, the flags come from 0x00 + 0xff
    let mut cpu = cpu_with(&[0x31, 0x00, 0x10, 0xf8, 0xff]);
    exec(&mut cpu, 3);
    exec(&mut cpu, 3);
    assert_eq!(cpu.hl(), 0x0fff);
    assert!(!cpu.carry());
    assert!(!cpu.halfcarry());
}

#[test]
fn cpu_conditional_jump_timing() {
    // Z is set at power up. JR NZ, -2 is not taken: 2 machine cycles,
    // then the NOP that follows runs
    let mut cpu = cpu_with(&[0x20, 0xfe, 0x00]);
    exec(&mut cpu, 2);
    assert_eq!(cpu.pc(), 0x102);
    // JR Z, -2 is taken: 3 machine cycles, back on itself
    let mut cpu = cpu_with(&[0x28, 0xfe]);
    exec(&mut cpu, 3);
    assert_eq!(cpu.pc(), 0x100);
}

#[test]
fn cpu_halt_with_interrupts_disabled_skips_handler() {
    // DI; HALT; NOP, with the timer interrupt enabled in IE and raised
    let mut cpu = cpu_with(&[0xf3, 0x76, 0x00, 0x00]);
    cpu.store_byte(0xffff, 0x04);
    exec(&mut cpu, 1);
    exec(&mut cpu, 1);
    assert!(cpu.halted());
    cpu.store_byte(0xff0f, 0x04);
    // The CPU wakes up and runs the NOP after the HALT, the handler at
    // 0x50 doesn't run
    exec(&mut cpu, 1);
    assert!(!cpu.halted());
    assert_eq!(cpu.pc(), 0x103);
}

#[test]
fn cpu_enters_interrupt_handler() {
    // Interrupts are enabled at power up; the timer interrupt is
    // enabled in IE and raised
    let mut cpu = cpu_with(&[0x00, 0x00]);
    cpu.store_byte(0xffff, 0x04);
    cpu.store_byte(0xff0f, 0x04);
    assert_eq!(cpu.step(), Ok(()));
    // The handler is entered at the first instruction boundary, with
    // the return address pushed
    assert_eq!(cpu.pc(), 0x50);
    assert!(!cpu.iten());
    assert_eq!(cpu.sp(), 0xfff0);
    assert_eq!(cpu.pop_word(), 0x100);
}

#[test]
fn cpu_push_pop_transfers_pair() {
    // LD BC, 0xbeef; LD HL, 0x1234; PUSH BC; POP HL
    let mut cpu = cpu_with(&[0x01, 0xef, 0xbe, 0x21, 0x34, 0x12, 0xc5, 0xe1]);
    exec(&mut cpu, 3);
    exec(&mut cpu, 3);
    let de = cpu.de();
    exec(&mut cpu, 4);
    exec(&mut cpu, 3);
    assert_eq!(cpu.hl(), 0xbeef);
    assert_eq!(cpu.bc(), 0xbeef);
    assert_eq!(cpu.de(), de);
    assert_eq!(cpu.sp(), 0xfff2);
}
