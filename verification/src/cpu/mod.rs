//! Game Boy CPU emulation

use vstd::prelude::*;
use crate::bits::{word, hi_byte, lo_byte, lemma_high_nibble_bits, high_nibble_bits};
use crate::io::{Interconnect, InterconnectView, Interrupt, spec_read, spec_write,
    spec_inter_step, spec_next_interrupt, spec_ack};
use crate::ui;
use crate::cpu::instructions::{Instr, ControlInstr, spec_next_instruction, spec_run, spec_instr_ok,
    next_instruction, run};

pub mod instructions;
pub mod bitops;
pub mod stack;
pub mod interrupts;
pub mod alu;
pub mod control;

verus! {

/// CPU registers. The 8 bit registers can be paired into 16 bit
/// registers.
#[derive(Clone, Copy, PartialEq, Eq, Structural, Debug)]
pub struct Registers {
    /// 16bit Program Counter
    pub pc: u16,
    /// 16bit Stack Pointer
    pub sp: u16,
    pub a: u8,
    pub b: u8,
    pub c: u8,
    pub d: u8,
    pub e: u8,
    pub h: u8,
    pub l: u8,
}

/// Flags contain `bool`s which are set or unset as a side effect of
/// the commands being executed. In turn, certain commands change
/// their behaviour based on the flag values.
#[derive(Clone, Copy, PartialEq, Eq, Structural, Debug)]
pub struct Flags {
    /// Zero: set if the result of a math operation is zero or two
    /// values compare equal
    pub z: bool,
    /// Substract Flag: set if the last math operation performed a
    /// substraction
    pub n: bool,
    /// Half Carry Flag: set if a carry occurred from the lower nibble
    /// in the last math operation.
    pub h: bool,
    /// Carry Flag: set if a carry occured during the last math
    /// operation or if the first operand register compared smaller.
    pub c: bool,
}

/// 8 bit registers
#[derive(Clone, Copy, PartialEq, Eq, Structural, Debug)]
pub enum Reg8 {
    A,
    B,
    C,
    D,
    E,
    H,
    L,
}

/// 16 bit registers and register pairs
#[derive(Clone, Copy, PartialEq, Eq, Structural, Debug)]
pub enum Reg16 {
    AF,
    BC,
    DE,
    HL,
    SP,
}

/// Reason why the CPU could not run an instruction
#[derive(Clone, Copy, PartialEq, Eq, Structural, Debug)]
pub enum CpuError {
    /// The opcode has no implementation
    Unimplemented(u8),
    /// The STOP instruction was executed
    Stopped,
}

/// Abstract CPU state
pub struct CpuView {
    pub regs: Registers,
    pub flags: Flags,
    pub instruction_delay: u32,
    pub iten: bool,
    pub iten_enable_next: bool,
    pub halted: bool,
    pub inter: InterconnectView,
}

/// CPU state.
pub struct Cpu {
    /// Time remaining for the current instruction to finish
    instruction_delay: u32,
    /// CPU registers (except for `F` register)
    regs: Registers,
    /// CPU flags (`F` register)
    flags: Flags,
    /// Interrupt enabled flag
    iten: bool,
    /// True if interrupts should be enabled after next instruction
    iten_enable_next: bool,
    /// CPU halted flag
    halted: bool,
    /// Interconnect to access external ressources (RAM, ROM,
    /// peripherals...)
    inter: Interconnect,
}

/// 1 for a set flag, 0 otherwise
pub open spec fn flag_bit(b: bool) -> int {
    if b {
        1
    } else {
        0
    }
}

/// Value of the `F` register: the flags in its high nibble
pub open spec fn spec_f(f: Flags) -> u8 {
    (128 * flag_bit(f.z) + 64 * flag_bit(f.n) + 32 * flag_bit(f.h) + 16 * flag_bit(f.c)) as u8
}

/// Flags loaded from a value of the `F` register
pub open spec fn spec_flags_of(v: u8) -> Flags {
    Flags { z: v & 0x80 != 0, n: v & 0x40 != 0, h: v & 0x20 != 0, c: v & 0x10 != 0 }
}

/// Value of 8 bit register `r`
#[verifier::opaque]
pub open spec fn spec_get8(s: CpuView, r: Reg8) -> u8 {
    match r {
        Reg8::A => s.regs.a,
        Reg8::B => s.regs.b,
        Reg8::C => s.regs.c,
        Reg8::D => s.regs.d,
        Reg8::E => s.regs.e,
        Reg8::H => s.regs.h,
        Reg8::L => s.regs.l,
    }
}

/// State with 8 bit register `r` set to `v`
#[verifier::opaque]
pub open spec fn spec_set8(s: CpuView, r: Reg8, v: u8) -> CpuView {
    CpuView {
        regs: match r {
            Reg8::A => Registers { a: v, ..s.regs },
            Reg8::B => Registers { b: v, ..s.regs },
            Reg8::C => Registers { c: v, ..s.regs },
            Reg8::D => Registers { d: v, ..s.regs },
            Reg8::E => Registers { e: v, ..s.regs },
            Reg8::H => Registers { h: v, ..s.regs },
            Reg8::L => Registers { l: v, ..s.regs },
        },
        ..s
    }
}

/// Value of 16 bit register `rr`
#[verifier::opaque]
pub open spec fn spec_get16(s: CpuView, rr: Reg16) -> u16 {
    match rr {
        Reg16::AF => word(s.regs.a, spec_f(s.flags)),
        Reg16::BC => word(s.regs.b, s.regs.c),
        Reg16::DE => word(s.regs.d, s.regs.e),
        Reg16::HL => word(s.regs.h, s.regs.l),
        Reg16::SP => s.regs.sp,
    }
}

/// State with 16 bit register `rr` set to `w`
#[verifier::opaque]
pub open spec fn spec_set16(s: CpuView, rr: Reg16, w: u16) -> CpuView {
    match rr {
        Reg16::AF => CpuView {
            regs: Registers { a: hi_byte(w), ..s.regs },
            flags: spec_flags_of(lo_byte(w)),
            ..s
        },
        Reg16::BC => CpuView { regs: Registers { b: hi_byte(w), c: lo_byte(w), ..s.regs }, ..s },
        Reg16::DE => CpuView { regs: Registers { d: hi_byte(w), e: lo_byte(w), ..s.regs }, ..s },
        Reg16::HL => CpuView { regs: Registers { h: hi_byte(w), l: lo_byte(w), ..s.regs }, ..s },
        Reg16::SP => CpuView { regs: Registers { sp: w, ..s.regs }, ..s },
    }
}

/// State with the program counter set to `pc`
pub open spec fn with_pc(s: CpuView, pc: u16) -> CpuView {
    CpuView { regs: Registers { pc: pc, ..s.regs }, ..s }
}

/// State with the flags set to `f`
pub open spec fn with_flags(s: CpuView, f: Flags) -> CpuView {
    CpuView { flags: f, ..s }
}

/// Byte at `pc` and the state with `pc` moved past it
#[verifier::opaque]
pub open spec fn spec_next_byte(s: CpuView) -> (CpuView, u8) {
    (with_pc(s, s.regs.pc.wrapping_add(1)), spec_read(s.inter, s.regs.pc))
}

/// Little endian word at `pc` and the state with `pc` moved past it
#[verifier::opaque]
pub open spec fn spec_next_word(s: CpuView) -> (CpuView, u16) {
    let (s1, lo) = spec_next_byte(s);
    let (s2, hi) = spec_next_byte(s1);
    (s2, word(hi, lo))
}

/// State with the byte `addr` of the memory map set to `v`
#[verifier::opaque]
pub open spec fn spec_store(s: CpuView, addr: u16, v: u8) -> CpuView {
    CpuView { inter: spec_write(s.inter, addr, v), ..s }
}

/// State after pushing one byte onto the stack
#[verifier::opaque]
pub open spec fn spec_push_byte(s: CpuView, v: u8) -> CpuView {
    let sp = s.regs.sp.wrapping_sub(1);
    spec_store(CpuView { regs: Registers { sp: sp, ..s.regs }, ..s }, sp, v)
}

/// State after pushing a word onto the stack, high byte first
#[verifier::opaque]
pub open spec fn spec_push_word(s: CpuView, w: u16) -> CpuView {
    spec_push_byte(spec_push_byte(s, hi_byte(w)), lo_byte(w))
}

/// Byte popped from the stack and the state after the pop
#[verifier::opaque]
pub open spec fn spec_pop_byte(s: CpuView) -> (CpuView, u8) {
    (
        CpuView { regs: Registers { sp: s.regs.sp.wrapping_add(1), ..s.regs }, ..s },
        spec_read(s.inter, s.regs.sp),
    )
}

/// Word popped from the stack, low byte first, and the state after
/// the pop
#[verifier::opaque]
pub open spec fn spec_pop_word(s: CpuView) -> (CpuView, u16) {
    let (s1, lo) = spec_pop_byte(s);
    let (s2, hi) = spec_pop_byte(s1);
    (s2, word(hi, lo))
}

/// State after adding `delay` machine cycles to the current
/// instruction
pub open spec fn spec_add_delay(s: CpuView, delay: u32) -> CpuView {
    CpuView { instruction_delay: (s.instruction_delay + delay * 4) as u32, ..s }
}

/// Address of the handler of interrupt `it`
pub open spec fn spec_handler(it: Interrupt) -> u16 {
    match it {
        Interrupt::VBlank => 0x40,
        Interrupt::Lcdc => 0x48,
        Interrupt::Timer => 0x50,
    }
}

/// Entering the handler of interrupt `it`: the CPU wakes up,
/// interrupts are disabled, the return address is pushed and the
/// context switch takes 32 cycles
pub open spec fn spec_interrupt(s: CpuView, it: Interrupt) -> CpuView {
    let s1 = CpuView {
        halted: false,
        iten: false,
        iten_enable_next: false,
        instruction_delay: 32,
        ..s
    };
    with_pc(spec_push_word(s1, s.regs.pc), spec_handler(it))
}

/// Power up register values, taken from the unofficial Game Boy CPU
/// manual
pub open spec fn spec_power_up_regs() -> Registers {
    Registers { pc: 0x100, sp: 0xfff2, a: 0x01, b: 0x00, c: 0x13, d: 0x00, e: 0xd8, h: 0x01, l: 0x4d }
}

/// Interrupt that the CPU enters at an instruction boundary: the
/// highest priority one that is both pending and enabled, while
/// interrupts are enabled
pub open spec fn spec_pending(s: CpuView) -> Option<Interrupt> {
    if s.iten {
        spec_next_interrupt(s.inter)
    } else {
        None
    }
}

/// Entering the handler of the pending interrupt `it`, which is
/// acknowledged
pub open spec fn spec_service(s: CpuView, it: Interrupt) -> CpuView {
    spec_interrupt(CpuView { inter: spec_ack(s.inter, it), ..s }, it)
}

/// At an instruction boundary where no interrupt is entered, a
/// pending interrupt enable takes effect
pub open spec fn spec_update_iten(s: CpuView) -> CpuView {
    if s.iten {
        s
    } else {
        CpuView { iten: s.iten_enable_next, ..s }
    }
}

/// A halted CPU waits for an interrupt. While interrupts are
/// disabled a pending interrupt wakes it up without running its
/// handler.
pub open spec fn spec_stays_halted(s: CpuView) -> bool {
    s.halted && (s.iten || spec_next_interrupt(s.inter) is None)
}

/// Fetch and run the next instruction. The instruction delay is set
/// from the opcode table (in clock cycles, 4 per machine cycle) before
/// the instruction runs, which may lengthen it. An opcode without an
/// implementation fails before it runs, and STOP fails once it has
/// run.
pub open spec fn spec_execute(s: CpuView) -> (CpuView, Result<(), CpuError>) {
    let (s1, (delay, i)) = spec_next_instruction(CpuView { halted: false, ..s });
    match i {
        Instr::Control(ControlInstr::Unimplemented(op)) => (s1, Err(CpuError::Unimplemented(op))),
        _ => spec_run_fetched(s1, delay, i),
    }
}

/// Run instruction `i`, fetched with its delay in machine cycles
pub open spec fn spec_run_fetched(s: CpuView, delay: u32, i: Instr) -> (CpuView, Result<(), CpuError>) {
    let s1 = spec_run(CpuView { instruction_delay: (delay * 4 - 1) as u32, ..s }, i);
    if i == Instr::Control(ControlInstr::Stop) {
        (s1, Err(CpuError::Stopped))
    } else {
        (s1, Ok(()))
    }
}

/// What happens at an instruction boundary: a pending interrupt is
/// entered, or the CPU keeps waiting while halted, or the next
/// instruction runs
pub open spec fn spec_boundary(s: CpuView) -> (CpuView, Result<(), CpuError>) {
    match spec_pending(s) {
        Some(it) => (spec_service(s, it), Ok(())),
        None => {
            let s1 = spec_update_iten(s);
            if spec_stays_halted(s1) {
                (s1, Ok(()))
            } else {
                spec_execute(s1)
            }
        },
    }
}

/// One tick of the system clock: the peripherals step, then the CPU
/// either waits for the current instruction to finish or reaches an
/// instruction boundary
pub open spec fn spec_step(s: CpuView) -> (CpuView, Result<(), CpuError>) {
    let s0 = CpuView { inter: spec_inter_step(s.inter), ..s };
    if s0.instruction_delay > 0 {
        (CpuView { instruction_delay: (s0.instruction_delay - 1) as u32, ..s0 }, Ok(()))
    } else {
        spec_boundary(s0)
    }
}

impl Cpu {
    /// Abstract state
    pub closed spec fn view(&self) -> CpuView {
        CpuView {
            regs: self.regs,
            flags: self.flags,
            instruction_delay: self.instruction_delay,
            iten: self.iten,
            iten_enable_next: self.iten_enable_next,
            halted: self.halted,
            inter: self.inter@,
        }
    }

    /// Consistent state: consistent peripherals and a bounded
    /// instruction delay
    pub closed spec fn wf(&self) -> bool {
        &&& self.inter.wf()
        &&& self.instruction_delay <= 64
    }

    /// Create a new Cpu instance and reset it
    pub fn new(inter: Interconnect) -> (cpu: Cpu)
        requires
            inter.wf(),
        ensures
            cpu.wf(),
            cpu@ == (CpuView {
                regs: spec_power_up_regs(),
                flags: Flags { z: true, n: false, h: true, c: true },
                instruction_delay: 0,
                iten: true,
                iten_enable_next: true,
                halted: false,
                inter: inter@,
            }),
    {
        // Default register values at startup. Taken from the
        // unofficial Game Boy CPU manual.
        let regs = Registers {
            pc: 0x100,
            sp: 0xfff2,
            a: 0x01,
            b: 0x00,
            c: 0x13,
            d: 0x00,
            e: 0xd8,
            h: 0x01,
            l: 0x4d,
        };
        Cpu {
            instruction_delay: 0,
            regs: regs,
            flags: Flags { z: true, n: false, h: true, c: true },
            inter: inter,
            iten: true,
            iten_enable_next: true,
            halted: false,
        }
    }

    /// Reset CPU registers to power up values: code starts at 0x100,
    /// the stack at 0xfffe and every other register and flag is 0
    pub fn reset(&mut self)
        requires
            old(self).wf(),
        ensures
            final(self).wf(),
            final(self)@ === (CpuView {
                regs: Registers { pc: 0x100, sp: 0xfffe, a: 0, b: 0, c: 0, d: 0, e: 0, h: 0, l: 0 },
                flags: Flags { z: false, n: false, h: false, c: false },
                ..old(self)@
            }),
    {
        self.regs = Registers { pc: 0x100, sp: 0xfffe, a: 0, b: 0, c: 0, d: 0, e: 0, h: 0, l: 0 };
        self.flags = Flags { z: false, n: false, h: false, c: false };
    }

    /// Interconnect, for the display, the audio and the saves
    pub fn inter(&self) -> (i: &Interconnect)
        ensures
            i@ == self@.inter,
            self.wf() ==> i.wf(),
    {
        &self.inter
    }

    /// Mark the current frame as displayed
    pub fn ack_frame(&mut self)
        requires
            old(self).wf(),
        ensures
            final(self).wf(),
            final(self)@ === (CpuView {
                inter: InterconnectView {
                    gpu: crate::io::with_gpu_regs(
                        old(self)@.inter.gpu,
                        crate::gpu::GpuRegs { frame_ready: false, ..old(self)@.inter.gpu.regs },
                    ),
                    ..old(self)@.inter
                },
                ..old(self)@
            }),
    {
        self.inter.ack_frame();
    }

    /// Take the audio samples produced since the last call
    pub fn take_audio(&mut self) -> (out: Vec<i16>)
        requires
            old(self).wf(),
        ensures
            final(self).wf(),
            out@ == old(self)@.inter.spu.audio_out,
            final(self)@ === (CpuView {
                inter: InterconnectView {
                    spu: crate::spu::SpuView { audio_out: Seq::empty(), ..old(self)@.inter.spu },
                    ..old(self)@.inter
                },
                ..old(self)@
            }),
    {
        self.inter.take_audio()
    }

    /// Update the state of the controller
    pub fn set_buttons(&mut self, buttons: ui::Buttons)
        requires
            old(self).wf(),
        ensures
            final(self).wf(),
            final(self)@ === (CpuView {
                inter: InterconnectView {
                    buttons: crate::io::buttons::Buttons { buttons: buttons, ..old(self)@.inter.buttons },
                    ..old(self)@.inter
                },
                ..old(self)@
            }),
    {
        self.inter.set_buttons(buttons);
    }

    /// Fetch byte at `addr` from the interconnect
    pub fn fetch_byte(&self, addr: u16) -> (r: u8)
        requires
            self.wf(),
        ensures
            r == spec_read(self@.inter, addr),
    {
        self.inter.get_byte(addr)
    }

    /// Store byte `val` at `addr` in the interconnect
    pub fn store_byte(&mut self, addr: u16, val: u8)
        requires
            old(self).wf(),
        ensures
            final(self)@.instruction_delay == old(self)@.instruction_delay,
            final(self).wf(),
            final(self)@ === spec_store(old(self)@, addr, val),
    {
        proof {
            reveal(spec_store);
        }
        self.inter.set_byte(addr, val)
    }

    /// Push one byte onto the stack and decrement the stack pointer
    pub fn push_byte(&mut self, val: u8)
        requires
            old(self).wf(),
        ensures
            final(self)@.instruction_delay == old(self)@.instruction_delay,
            final(self).wf(),
            final(self)@ === spec_push_byte(old(self)@, val),
    {
        proof {
            reveal(spec_push_byte);
            reveal(spec_store);
            reveal(spec_set16);
        }
        let sp = self.sp().wrapping_sub(1);
        self.set_sp(sp);
        self.store_byte(sp, val);
    }

    /// Push two bytes onto the stack and decrement the stack pointer
    /// twice
    pub fn push_word(&mut self, val: u16)
        requires
            old(self).wf(),
        ensures
            final(self)@.instruction_delay == old(self)@.instruction_delay,
            final(self).wf(),
            final(self)@ === spec_push_word(old(self)@, val),
    {
        proof {
            reveal(spec_push_word);
        }
        self.push_byte((val / 256) as u8);
        self.push_byte((val % 256) as u8);
    }

    /// Retrieve one byte from the stack and increment the stack
    /// pointer
    pub fn pop_byte(&mut self) -> (r: u8)
        requires
            old(self).wf(),
        ensures
            final(self)@.instruction_delay == old(self)@.instruction_delay,
            final(self).wf(),
            (final(self)@, r) === spec_pop_byte(old(self)@),
    {
        proof {
            reveal(spec_pop_byte);
            reveal(spec_set16);
        }
        let sp = self.sp();
        let b = self.fetch_byte(sp);
        self.set_sp(sp.wrapping_add(1));
        b
    }

    /// Retrieve two bytes from the stack and increment the stack
    /// pointer twice
    pub fn pop_word(&mut self) -> (r: u16)
        requires
            old(self).wf(),
        ensures
            final(self)@.instruction_delay == old(self)@.instruction_delay,
            final(self).wf(),
            (final(self)@, r) === spec_pop_word(old(self)@),
    {
        proof {
            reveal(spec_pop_word);
        }
        let lo = self.pop_byte() as u16;
        let hi = self.pop_byte() as u16;
        hi * 256 + lo
    }

    /// Certain instructions take a different amount of time to
    /// execute depending on the cpu state (conditional jumps and
    /// calls). `delay` is expressed in CPU Machine cycle, there's 4
    /// Clock cycles in one Machine cycle.
    pub fn additional_delay(&mut self, delay: u32)
        requires
            old(self).wf(),
            old(self)@.instruction_delay + delay * 4 <= 64,
        ensures
            final(self).wf(),
            final(self)@ === spec_add_delay(old(self)@, delay),
    {
        self.instruction_delay = self.instruction_delay + delay * 4;
    }

    /// Retrieve value of the `PC` register
    pub fn pc(&self) -> (r: u16)
        ensures
            r == self@.regs.pc,
    {
        self.regs.pc
    }

    /// Set value of the `PC` register
    pub fn set_pc(&mut self, pc: u16)
        requires
            old(self).wf(),
        ensures
            final(self).wf(),
            final(self)@ === with_pc(old(self)@, pc),
    {
        self.regs.pc = pc;
    }

    /// Retrieve value of the `SP` register
    pub fn sp(&self) -> (r: u16)
        ensures
            r == self@.regs.sp,
    {
        self.regs.sp
    }

    /// Set value of the `SP` register
    pub fn set_sp(&mut self, sp: u16)
        requires
            old(self).wf(),
        ensures
            final(self)@.inter == old(self)@.inter,
            final(self)@.instruction_delay == old(self)@.instruction_delay,
            final(self)@.regs.pc == old(self)@.regs.pc,
            final(self)@.flags == old(self)@.flags,
            final(self).wf(),
            final(self)@ === spec_set16(old(self)@, Reg16::SP, sp),
    {
        proof {
            reveal(spec_set16);
        }
        self.regs.sp = sp;
    }

    /// Retrieve value of the `AF` register
    pub fn af(&self) -> (r: u16)
        ensures
            r == spec_get16(self@, Reg16::AF),
    {
        proof {
            reveal(spec_get16);
        }
        (self.regs.a as u16) * 256 + self.f() as u16
    }

    /// Set value of the `AF` register
    pub fn set_af(&mut self, af: u16)
        requires
            old(self).wf(),
        ensures
            final(self)@.inter == old(self)@.inter,
            final(self)@.instruction_delay == old(self)@.instruction_delay,
            final(self)@.regs.pc == old(self)@.regs.pc,
            final(self).wf(),
            final(self)@ === spec_set16(old(self)@, Reg16::AF, af),
    {
        proof {
            reveal(spec_set16);
        }
        self.regs.a = (af / 256) as u8;
        self.set_f((af % 256) as u8);
    }

    /// Retrieve value of the `BC` register
    pub fn bc(&self) -> (r: u16)
        ensures
            r == spec_get16(self@, Reg16::BC),
    {
        proof {
            reveal(spec_get16);
        }
        (self.regs.b as u16) * 256 + self.regs.c as u16
    }

    /// Set value of the `BC` register
    pub fn set_bc(&mut self, bc: u16)
        requires
            old(self).wf(),
        ensures
            final(self)@.inter == old(self)@.inter,
            final(self)@.instruction_delay == old(self)@.instruction_delay,
            final(self)@.regs.pc == old(self)@.regs.pc,
            final(self)@.flags == old(self)@.flags,
            final(self).wf(),
            final(self)@ === spec_set16(old(self)@, Reg16::BC, bc),
    {
        proof {
            reveal(spec_set16);
        }
        self.regs.b = (bc / 256) as u8;
        self.regs.c = (bc % 256) as u8;
    }

    /// Retrieve value of the `DE` register
    pub fn de(&self) -> (r: u16)
        ensures
            r == spec_get16(self@, Reg16::DE),
    {
        proof {
            reveal(spec_get16);
        }
        (self.regs.d as u16) * 256 + self.regs.e as u16
    }

    /// Set value of the `DE` register
    pub fn set_de(&mut self, de: u16)
        requires
            old(self).wf(),
        ensures
            final(self)@.inter == old(self)@.inter,
            final(self)@.instruction_delay == old(self)@.instruction_delay,
            final(self)@.regs.pc == old(self)@.regs.pc,
            final(self)@.flags == old(self)@.flags,
            final(self).wf(),
            final(self)@ === spec_set16(old(self)@, Reg16::DE, de),
    {
        proof {
            reveal(spec_set16);
        }
        self.regs.d = (de / 256) as u8;
        self.regs.e = (de % 256) as u8;
    }

    /// Retrieve value of the `HL` register
    pub fn hl(&self) -> (r: u16)
        ensures
            r == spec_get16(self@, Reg16::HL),
    {
        proof {
            reveal(spec_get16);
        }
        (self.regs.h as u16) * 256 + self.regs.l as u16
    }

    /// Set value of the `HL` register
    pub fn set_hl(&mut self, hl: u16)
        requires
            old(self).wf(),
        ensures
            final(self)@.inter == old(self)@.inter,
            final(self)@.instruction_delay == old(self)@.instruction_delay,
            final(self)@.regs.pc == old(self)@.regs.pc,
            final(self)@.flags == old(self)@.flags,
            final(self).wf(),
            final(self)@ === spec_set16(old(self)@, Reg16::HL, hl),
    {
        proof {
            reveal(spec_set16);
        }
        self.regs.h = (hl / 256) as u8;
        self.regs.l = (hl % 256) as u8;
    }

    /// Retrieve value of the `A` register
    pub fn a(&self) -> (r: u8)
        ensures
            r == self@.regs.a,
            r == spec_get8(self@, Reg8::A),
    {
        proof {
            reveal(spec_get8);
        }
        self.regs.a
    }

    /// Set value of the `A` register
    pub fn set_a(&mut self, v: u8)
        requires
            old(self).wf(),
        ensures
            final(self)@.flags == old(self)@.flags,
            final(self)@.inter == old(self)@.inter,
            final(self)@.instruction_delay == old(self)@.instruction_delay,
            final(self)@.regs.pc == old(self)@.regs.pc,
            final(self)@.regs.sp == old(self)@.regs.sp,
            final(self).wf(),
            final(self)@ === spec_set8(old(self)@, Reg8::A, v),
    {
        proof {
            reveal(spec_set8);
        }
        self.regs.a = v;
    }

    /// Retrieve value of the `B` register
    pub fn b(&self) -> (r: u8)
        ensures
            r == self@.regs.b,
            r == spec_get8(self@, Reg8::B),
    {
        proof {
            reveal(spec_get8);
        }
        self.regs.b
    }

    /// Set value of the `B` register
    pub fn set_b(&mut self, v: u8)
        requires
            old(self).wf(),
        ensures
            final(self)@.flags == old(self)@.flags,
            final(self)@.inter == old(self)@.inter,
            final(self)@.instruction_delay == old(self)@.instruction_delay,
            final(self)@.regs.pc == old(self)@.regs.pc,
            final(self)@.regs.sp == old(self)@.regs.sp,
            final(self).wf(),
            final(self)@ === spec_set8(old(self)@, Reg8::B, v),
    {
        proof {
            reveal(spec_set8);
        }
        self.regs.b = v;
    }

    /// Retrieve value of the `C` register
    pub fn c(&self) -> (r: u8)
        ensures
            r == self@.regs.c,
            r == spec_get8(self@, Reg8::C),
    {
        proof {
            reveal(spec_get8);
        }
        self.regs.c
    }

    /// Set value of the `C` register
    pub fn set_c(&mut self, v: u8)
        requires
            old(self).wf(),
        ensures
            final(self)@.flags == old(self)@.flags,
            final(self)@.inter == old(self)@.inter,
            final(self)@.instruction_delay == old(self)@.instruction_delay,
            final(self)@.regs.pc == old(self)@.regs.pc,
            final(self)@.regs.sp == old(self)@.regs.sp,
            final(self).wf(),
            final(self)@ === spec_set8(old(self)@, Reg8::C, v),
    {
        proof {
            reveal(spec_set8);
        }
        self.regs.c = v;
    }

    /// Retrieve value of the `D` register
    pub fn d(&self) -> (r: u8)
        ensures
            r == self@.regs.d,
            r == spec_get8(self@, Reg8::D),
    {
        proof {
            reveal(spec_get8);
        }
        self.regs.d
    }

    /// Set value of the `D` register
    pub fn set_d(&mut self, v: u8)
        requires
            old(self).wf(),
        ensures
            final(self)@.flags == old(self)@.flags,
            final(self)@.inter == old(self)@.inter,
            final(self)@.instruction_delay == old(self)@.instruction_delay,
            final(self)@.regs.pc == old(self)@.regs.pc,
            final(self)@.regs.sp == old(self)@.regs.sp,
            final(self).wf(),
            final(self)@ === spec_set8(old(self)@, Reg8::D, v),
    {
        proof {
            reveal(spec_set8);
        }
        self.regs.d = v;
    }

    /// Retrieve value of the `E` register
    pub fn e(&self) -> (r: u8)
        ensures
            r == self@.regs.e,
            r == spec_get8(self@, Reg8::E),
    {
        proof {
            reveal(spec_get8);
        }
        self.regs.e
    }

    /// Set value of the `E` register
    pub fn set_e(&mut self, v: u8)
        requires
            old(self).wf(),
        ensures
            final(self)@.flags == old(self)@.flags,
            final(self)@.inter == old(self)@.inter,
            final(self)@.instruction_delay == old(self)@.instruction_delay,
            final(self)@.regs.pc == old(self)@.regs.pc,
            final(self)@.regs.sp == old(self)@.regs.sp,
            final(self).wf(),
            final(self)@ === spec_set8(old(self)@, Reg8::E, v),
    {
        proof {
            reveal(spec_set8);
        }
        self.regs.e = v;
    }

    /// Retrieve value of the `H` register
    pub fn h(&self) -> (r: u8)
        ensures
            r == self@.regs.h,
            r == spec_get8(self@, Reg8::H),
    {
        proof {
            reveal(spec_get8);
        }
        self.regs.h
    }

    /// Set value of the `H` register
    pub fn set_h(&mut self, v: u8)
        requires
            old(self).wf(),
        ensures
            final(self)@.flags == old(self)@.flags,
            final(self)@.inter == old(self)@.inter,
            final(self)@.instruction_delay == old(self)@.instruction_delay,
            final(self)@.regs.pc == old(self)@.regs.pc,
            final(self)@.regs.sp == old(self)@.regs.sp,
            final(self).wf(),
            final(self)@ === spec_set8(old(self)@, Reg8::H, v),
    {
        proof {
            reveal(spec_set8);
        }
        self.regs.h = v;
    }

    /// Retrieve value of the `L` register
    pub fn l(&self) -> (r: u8)
        ensures
            r == self@.regs.l,
            r == spec_get8(self@, Reg8::L),
    {
        proof {
            reveal(spec_get8);
        }
        self.regs.l
    }

    /// Set value of the `L` register
    pub fn set_l(&mut self, v: u8)
        requires
            old(self).wf(),
        ensures
            final(self)@.flags == old(self)@.flags,
            final(self)@.inter == old(self)@.inter,
            final(self)@.instruction_delay == old(self)@.instruction_delay,
            final(self)@.regs.pc == old(self)@.regs.pc,
            final(self)@.regs.sp == old(self)@.regs.sp,
            final(self).wf(),
            final(self)@ === spec_set8(old(self)@, Reg8::L, v),
    {
        proof {
            reveal(spec_set8);
        }
        self.regs.l = v;
    }

    /// Retrieve value of 8 bit register `r`
    pub fn get8(&self, r: Reg8) -> (v: u8)
        ensures
            v == spec_get8(self@, r),
    {
        proof {
            reveal(spec_get8);
        }
        match r {
            Reg8::A => self.regs.a,
            Reg8::B => self.regs.b,
            Reg8::C => self.regs.c,
            Reg8::D => self.regs.d,
            Reg8::E => self.regs.e,
            Reg8::H => self.regs.h,
            Reg8::L => self.regs.l,
        }
    }

    /// Set value of 8 bit register `r`
    pub fn set8(&mut self, r: Reg8, v: u8)
        requires
            old(self).wf(),
        ensures
            final(self)@.flags == old(self)@.flags,
            final(self)@.inter == old(self)@.inter,
            final(self)@.instruction_delay == old(self)@.instruction_delay,
            final(self)@.regs.pc == old(self)@.regs.pc,
            final(self)@.regs.sp == old(self)@.regs.sp,
            final(self).wf(),
            final(self)@ === spec_set8(old(self)@, r, v),
    {
        proof {
            reveal(spec_set8);
        }
        let regs = self.regs;
        self.regs = match r {
            Reg8::A => Registers { a: v, ..regs },
            Reg8::B => Registers { b: v, ..regs },
            Reg8::C => Registers { c: v, ..regs },
            Reg8::D => Registers { d: v, ..regs },
            Reg8::E => Registers { e: v, ..regs },
            Reg8::H => Registers { h: v, ..regs },
            Reg8::L => Registers { l: v, ..regs },
        };
    }

    /// Retrieve value of 16 bit register `rr`
    pub fn get16(&self, rr: Reg16) -> (v: u16)
        ensures
            v == spec_get16(self@, rr),
    {
        proof {
            reveal(spec_get16);
        }
        match rr {
            Reg16::AF => self.af(),
            Reg16::BC => self.bc(),
            Reg16::DE => self.de(),
            Reg16::HL => self.hl(),
            Reg16::SP => self.regs.sp,
        }
    }

    /// Set value of 16 bit register `rr`
    pub fn set16(&mut self, rr: Reg16, w: u16)
        requires
            old(self).wf(),
        ensures
            final(self)@.inter == old(self)@.inter,
            final(self)@.instruction_delay == old(self)@.instruction_delay,
            final(self)@.regs.pc == old(self)@.regs.pc,
            final(self).wf(),
            final(self)@ === spec_set16(old(self)@, rr, w),
    {
        proof {
            reveal(spec_set16);
        }
        let hi = (w / 256) as u8;
        let lo = (w % 256) as u8;
        let regs = self.regs;
        match rr {
            Reg16::AF => {
                self.regs = Registers { a: hi, ..regs };
                self.flags = Flags {
                    z: lo & 0x80 != 0,
                    n: lo & 0x40 != 0,
                    h: lo & 0x20 != 0,
                    c: lo & 0x10 != 0,
                };
            },
            Reg16::BC => {
                self.regs = Registers { b: hi, c: lo, ..regs };
            },
            Reg16::DE => {
                self.regs = Registers { d: hi, e: lo, ..regs };
            },
            Reg16::HL => {
                self.regs = Registers { h: hi, l: lo, ..regs };
            },
            Reg16::SP => {
                self.regs = Registers { sp: w, ..regs };
            },
        }
    }

    /// Retrieve value of the `F` register
    pub fn f(&self) -> (r: u8)
        ensures
            r == spec_f(self@.flags),
    {
        let z: u8 = if self.flags.z {
            1
        } else {
            0
        };
        let n: u8 = if self.flags.n {
            1
        } else {
            0
        };
        let h: u8 = if self.flags.h {
            1
        } else {
            0
        };
        let c: u8 = if self.flags.c {
            1
        } else {
            0
        };
        128 * z + 64 * n + 32 * h + 16 * c
    }

    /// Set value of the `F` register
    pub fn set_f(&mut self, v: u8)
        requires
            old(self).wf(),
        ensures
            final(self).wf(),
            final(self)@ === with_flags(old(self)@, spec_flags_of(v)),
    {
        self.flags = Flags { z: v & 0x80 != 0, n: v & 0x40 != 0, h: v & 0x20 != 0, c: v & 0x10 != 0 };
    }

    /// Flags of the CPU
    pub fn flags(&self) -> (r: Flags)
        ensures
            r == self@.flags,
    {
        self.flags
    }

    /// Set all the flags at once
    pub fn set_flags(&mut self, f: Flags)
        requires
            old(self).wf(),
        ensures
            final(self).wf(),
            final(self)@ === with_flags(old(self)@, f),
    {
        self.flags = f;
    }

    /// Clear all the flags
    pub fn clear_flags(&mut self)
        requires
            old(self).wf(),
        ensures
            final(self).wf(),
            final(self)@ === with_flags(old(self)@, Flags { z: false, n: false, h: false, c: false }),
    {
        self.flags = Flags { z: false, n: false, h: false, c: false };
    }

    /// Get value of 'Z' flag
    pub fn zero(&self) -> (r: bool)
        ensures
            r == self@.flags.z,
    {
        self.flags.z
    }

    /// set value of 'Z' flag
    pub fn set_zero(&mut self, s: bool)
        requires
            old(self).wf(),
        ensures
            final(self).wf(),
            final(self)@ === with_flags(old(self)@, Flags { z: s, ..old(self)@.flags }),
    {
        self.flags.z = s;
    }

    /// Get value of 'C' flag
    pub fn carry(&self) -> (r: bool)
        ensures
            r == self@.flags.c,
    {
        self.flags.c
    }

    /// Set value of 'C' flag
    pub fn set_carry(&mut self, s: bool)
        requires
            old(self).wf(),
        ensures
            final(self).wf(),
            final(self)@ === with_flags(old(self)@, Flags { c: s, ..old(self)@.flags }),
    {
        self.flags.c = s;
    }

    /// Get value of 'H' flag
    pub fn halfcarry(&self) -> (r: bool)
        ensures
            r == self@.flags.h,
    {
        self.flags.h
    }

    /// Set value of 'H' flag
    pub fn set_halfcarry(&mut self, s: bool)
        requires
            old(self).wf(),
        ensures
            final(self).wf(),
            final(self)@ === with_flags(old(self)@, Flags { h: s, ..old(self)@.flags }),
    {
        self.flags.h = s;
    }

    /// Get value of 'N' flag
    pub fn substract(&self) -> (r: bool)
        ensures
            r == self@.flags.n,
    {
        self.flags.n
    }

    /// Set value of 'N' flag
    pub fn set_substract(&mut self, s: bool)
        requires
            old(self).wf(),
        ensures
            final(self).wf(),
            final(self)@ === with_flags(old(self)@, Flags { n: s, ..old(self)@.flags }),
    {
        self.flags.n = s;
    }

    /// Disable Interrupts. Takes effect immediately and cancels any
    /// pending interrupt enable request.
    pub fn disable_interrupts(&mut self)
        requires
            old(self).wf(),
        ensures
            final(self).wf(),
            final(self)@ === (CpuView { iten: false, iten_enable_next: false, ..old(self)@ }),
    {
        self.iten = false;
        self.iten_enable_next = false;
    }

    /// Enable Interrupts immediately
    pub fn enable_interrupts(&mut self)
        requires
            old(self).wf(),
        ensures
            final(self).wf(),
            final(self)@ === (CpuView { iten: true, iten_enable_next: true, ..old(self)@ }),
    {
        self.iten = true;
        self.iten_enable_next = true;
    }

    /// Enable Interrupts after the next instruction.
    pub fn enable_interrupts_next(&mut self)
        requires
            old(self).wf(),
        ensures
            final(self).wf(),
            final(self)@ === (CpuView { iten_enable_next: true, ..old(self)@ }),
    {
        self.iten_enable_next = true;
    }

    /// `true` when interrupts are enabled
    pub fn iten(&self) -> (r: bool)
        ensures
            r == self@.iten,
    {
        self.iten
    }

    /// `true` while the CPU waits for an interrupt after HALT
    pub fn halted(&self) -> (r: bool)
        ensures
            r == self@.halted,
    {
        self.halted
    }

    /// Halt and wait for interrupts
    pub fn halt(&mut self)
        requires
            old(self).wf(),
        ensures
            final(self).wf(),
            final(self)@ === (CpuView { halted: true, ..old(self)@ }),
    {
        self.halted = true;
    }

    /// Called at each tick of the system clock. Move the emulated
    /// state one step forward. Fails on an opcode that has no
    /// implementation and on STOP.
    pub fn step(&mut self) -> (r: Result<(), CpuError>)
        requires
            old(self).wf(),
        ensures
            final(self).wf(),
            (final(self)@, r) === spec_step(old(self)@),
    {
        self.inter.step();
        // Are we done running the current instruction?
        if self.instruction_delay > 0 {
            // Nope, wait for the next cycle
            self.instruction_delay = self.instruction_delay - 1;
            return Ok(());
        }
        self.boundary()
    }

    /// Instruction boundary: enter a pending interrupt, or wait while
    /// halted, or run the next instruction
    fn boundary(&mut self) -> (r: Result<(), CpuError>)
        requires
            old(self).wf(),
            old(self)@.instruction_delay == 0,
        ensures
            final(self).wf(),
            (final(self)@, r) === spec_boundary(old(self)@),
    {
        if self.service_interrupt() {
            // Wait until the context switch delay is over. We're
            // sure not to reenter here after that since `iten` is
            // set to false when entering the handler
            return Ok(());
        }
        if self.halted && (self.iten || self.inter.next_interrupt().is_none()) {
            // Wait for interrupt
            return Ok(());
        }
        self.execute()
    }

    /// Enter the pending interrupt if there is one and interrupts are
    /// enabled; otherwise a pending interrupt enable takes effect
    fn service_interrupt(&mut self) -> (done: bool)
        requires
            old(self).wf(),
            old(self)@.instruction_delay == 0,
        ensures
            final(self).wf(),
            done == spec_pending(old(self)@) is Some,
            done ==> final(self)@ === spec_service(old(self)@, spec_pending(old(self)@)->0),
            !done ==> final(self)@ === spec_update_iten(old(self)@),
    {
        if self.iten {
            match self.inter.next_interrupt_ack() {
                Some(it) => {
                    // We have a pending interrupt!
                    self.interrupt(it);
                    true
                },
                None => false,
            }
        } else {
            // If an interrupt enable is pending we update the iten
            // flag
            self.iten = self.iten_enable_next;
            false
        }
    }

    /// Fetch the next instruction and run it
    fn execute(&mut self) -> (r: Result<(), CpuError>)
        requires
            old(self).wf(),
            old(self)@.instruction_delay == 0,
        ensures
            final(self).wf(),
            (final(self)@, r) === spec_execute(old(self)@),
    {
        self.halted = false;
        let (delay, i) = next_instruction(self);
        if let Instr::Control(ControlInstr::Unimplemented(op)) = i {
            return Err(CpuError::Unimplemented(op));
        }
        self.run_fetched(delay, i)
    }

    /// Run instruction `i`, fetched with its delay in machine cycles
    fn run_fetched(&mut self, delay: u32, i: Instr) -> (r: Result<(), CpuError>)
        requires
            old(self).wf(),
            1 <= delay <= 6,
            spec_instr_ok(i),
        ensures
            final(self).wf(),
            (final(self)@, r) === spec_run_fetched(old(self)@, delay, i),
    {
        // Instruction delays are in CPU Machine cycles. There's 4
        // Clock cycles in one Machine cycle.
        self.instruction_delay = delay * 4 - 1;
        // Run the instruction. This can change the entire CPU state
        // including the delay above (conditional instructions add to
        // it).
        run(self, i);
        match i {
            Instr::Control(ControlInstr::Stop) => Err(CpuError::Stopped),
            _ => Ok(()),
        }
    }

    /// Execute interrupt handler for `it`
    fn interrupt(&mut self, it: Interrupt)
        requires
            old(self).wf(),
        ensures
            final(self).wf(),
            final(self)@ === spec_interrupt(old(self)@, it),
    {
        // If the CPU was halted it's time to wake it up.
        self.halted = false;
        // Interrupt are disabled when entering an interrupt handler.
        self.disable_interrupts();
        // Switching context takes 32 cycles
        self.instruction_delay = 32;
        let handler_addr: u16 = match it {
            Interrupt::VBlank => 0x40,
            Interrupt::Lcdc => 0x48,
            Interrupt::Timer => 0x50,
        };
        // Push current value to stack
        let pc = self.pc();
        self.push_word(pc);
        // Jump to IT handler
        self.set_pc(handler_addr);
    }
}

/// Reading the `F` register after writing `v` to it gives the high
/// nibble of `v`: the low nibble doesn't exist.
pub proof fn lemma_f_roundtrip(v: u8)
    ensures
        spec_f(spec_flags_of(v)) == v & 0xf0,
{
    lemma_high_nibble_bits(v);
}

/// Writing a register pair and reading it back gives the written
/// value, but for `AF` whose low nibble doesn't exist.
pub proof fn lemma_reg16_roundtrip(s: CpuView, rr: Reg16, w: u16)
    ensures
        rr != Reg16::AF ==> spec_get16(spec_set16(s, rr, w), rr) == w,
        spec_get16(spec_set16(s, Reg16::AF, w), Reg16::AF) == (w / 16) * 16,
{
    reveal(spec_get16);
    reveal(spec_set16);
    crate::bits::lemma_word_bytes(0, 0, w);
    let lo = lo_byte(w);
    lemma_high_nibble_bits(lo);
    assert(spec_f(spec_flags_of(lo)) == (lo / 16) * 16);
}

} // verus!
