//! Input/Output abstraction for memory, ROM and I/O mapped registers

use vstd::prelude::*;
use crate::cartridge::{Cartridge, CartridgeView, spec_rom_byte, spec_ram_addr, spec_set_ram_byte};
use crate::cartridge::models::{spec_read_ram, spec_write_rom};
use crate::gpu::{Gpu, GpuView, GpuRegs, LcdItStatus, spec_lcdc, spec_stat, spec_set_lcdc,
    spec_set_stat, spec_palette, spec_palette_reg, spec_oam_byte, spec_set_oam, spec_force_it_lcd,
    spec_ack_it_lcd, spec_gpu_step, spec_gpu_write, VRAM_SIZE};
use crate::spu::{Spu, SpuView, SpuRegs, spec_spu_step};
use crate::spu::registers::{spec_spu_write, spec_is_sound_reg, spec_nr10, spec_nr11, spec_nr12, spec_nr14, spec_nr21, spec_nr22, spec_nr24, spec_nr30, spec_nr32, spec_nr34, spec_nr42, spec_nr43, spec_nr44, spec_nr50, spec_nr51, spec_nr52, spec_nr3_ram, spec_set_nr10, spec_set_nr11, spec_set_nr12, spec_set_nr13, spec_set_nr14, spec_set_nr21, spec_set_nr22, spec_set_nr23, spec_set_nr24, spec_set_nr30, spec_set_nr31, spec_set_nr32, spec_set_nr33, spec_set_nr34, spec_set_nr41, spec_set_nr42, spec_set_nr43, spec_set_nr44, spec_set_nr50, spec_set_nr51, spec_set_nr52, spec_set_nr3_ram};
use crate::io::ram::Ram;
use crate::io::regs::{Regs, REGS_SIZE};
use crate::io::timer::{Timer, Divider, spec_div, spec_config, spec_divider, spec_timer_step};
use crate::io::buttons::{Buttons, spec_input};
use crate::ui;

pub mod buttons;
pub mod ram;
pub mod regs;
pub mod rom;
pub mod timer;
pub mod lcd_regs;
pub mod irq;

verus! {

/// Size of the work RAM mapped at [0xc000, 0xdfff]
pub const WORK_RAM_SIZE: usize = 0x2000;

/// Size of the high RAM mapped at [0xff80, 0xfffe]
pub const HIGH_RAM_SIZE: usize = 0x7f;

/// Interrupt sources, by decreasing priority
#[derive(Clone, Copy, PartialEq, Eq, Structural, Debug)]
pub enum Interrupt {
    VBlank,
    Lcdc,
    Timer,
}

/// Abstract state of the interconnect
pub struct InterconnectView {
    pub cart: CartridgeView,
    pub ram: Seq<u8>,
    pub hram: Seq<u8>,
    pub regs: Seq<u8>,
    pub gpu: GpuView,
    pub spu: SpuView,
    pub timer: Timer,
    pub buttons: Buttons,
    pub it_enable: u8,
}

/// Interconnect struct used by the CPU and GPU to access the ROM, RAM
/// and registers
pub struct Interconnect {
    cart: Cartridge,
    /// Work RAM
    ram: Ram,
    /// High RAM
    hram: Ram,
    /// IO registers without a dedicated peripheral
    regs: Regs,
    gpu: Gpu,
    spu: Spu,
    timer: Timer,
    buttons: Buttons,
    /// Interrupt enable register
    it_enable: u8,
}

/// 1 for a set flag, 0 otherwise
pub open spec fn bit(b: bool) -> int {
    if b {
        1
    } else {
        0
    }
}

/// Value of the interrupt flag register: the 3 high bits always
/// read as 1
pub open spec fn spec_it_flags(v: InterconnectView) -> u8 {
    (0xe0 + 4 * bit(v.timer.interrupt) + 2 * bit(v.gpu.regs.lcd_it_status
        == LcdItStatus::Triggered) + bit(v.gpu.regs.it_vblank)) as u8
}

/// Value of the IO register at offset `o` of [0xff00, 0xff7f]
pub open spec fn spec_io_read(v: InterconnectView, o: u8) -> u8 {
    let r = v.spu.regs;
    let g = v.gpu.regs;
    match o {
        0x00 => spec_input(v.buttons),
        0x04 => spec_div(v.timer),
        0x05 => v.timer.counter,
        0x06 => v.timer.modulo,
        0x07 => spec_config(v.timer),
        0x0f => spec_it_flags(v),
        0x10 => spec_nr10(r),
        0x11 => spec_nr11(r),
        0x12 => spec_nr12(r),
        0x13 => 0xff,
        0x14 => spec_nr14(r),
        0x16 => spec_nr21(r),
        0x17 => spec_nr22(r),
        0x18 => 0xff,
        0x19 => spec_nr24(r),
        0x1a => spec_nr30(r),
        0x1b => 0xff,
        0x1c => spec_nr32(r),
        0x1d => 0xff,
        0x1e => spec_nr34(r),
        0x20 => 0xff,
        0x21 => spec_nr42(r),
        0x22 => spec_nr43(r),
        0x23 => spec_nr44(r),
        0x24 => spec_nr50(r),
        0x25 => spec_nr51(r),
        0x26 => spec_nr52(r),
        0x40 => spec_lcdc(g),
        0x41 => spec_stat(g),
        0x42 => g.scy,
        0x43 => g.scx,
        0x44 => g.line,
        0x45 => g.lyc,
        0x47 => spec_palette_reg(g.bgp),
        0x48 => spec_palette_reg(g.obp0),
        0x49 => spec_palette_reg(g.obp1),
        0x4a => g.wy,
        0x4b => g.wx,
        _ => if 0x30 <= o <= 0x3f {
            spec_nr3_ram(r, (o - 0x30) as int)
        } else {
            v.regs[o as int]
        },
    }
}

/// Value seen by the CPU at `addr`
#[verifier::opaque]
pub open spec fn spec_read(v: InterconnectView, addr: u16) -> u8 {
    if addr < 0x8000 {
        spec_rom_byte(v.cart, addr)
    } else if addr < 0xa000 {
        v.gpu.vram[addr - 0x8000]
    } else if addr < 0xc000 {
        spec_read_ram(v.cart, spec_ram_addr(v.cart, (addr - 0xa000) as u16))
    } else if addr < 0xe000 {
        v.ram[addr - 0xc000]
    } else if addr < 0xfe00 {
        // Echo of the work RAM
        v.ram[addr - 0xe000]
    } else if addr < 0xfea0 {
        spec_oam_byte(v.gpu.oam, (addr - 0xfe00) as u16)
    } else if addr < 0xff00 {
        // Unusable area
        0
    } else if addr < 0xff80 {
        spec_io_read(v, (addr - 0xff00) as u8)
    } else if addr < 0xffff {
        v.hram[addr - 0xff80]
    } else {
        v.it_enable
    }
}

/// GPU state with registers `r`
pub open spec fn with_gpu_regs(g: GpuView, r: GpuRegs) -> GpuView {
    GpuView { regs: r, ..g }
}

/// Offsets of [0xff00, 0xff7f] handled by the GPU registers
pub open spec fn spec_is_gpu_reg(o: u8) -> bool {
    0x40 <= o <= 0x4b && o != 0x44 && o != 0x46
}

/// Interrupt status after a write of `val` to the interrupt flag
/// register
pub open spec fn spec_write_it_flags(v: InterconnectView, val: u8) -> InterconnectView {
    let g1 = GpuView { regs: spec_force_it_lcd(v.gpu.regs, val & 2 != 0), ..v.gpu };
    InterconnectView {
        timer: Timer { interrupt: val & 4 != 0, ..v.timer },
        gpu: GpuView { regs: GpuRegs { it_vblank: val & 1 != 0, ..g1.regs }, ..g1 },
        ..v
    }
}

/// State after the OAM DMA has copied its first `n` bytes from `src`
#[verifier::opaque]
pub open spec fn spec_dma_steps(v: InterconnectView, src: u16, n: nat) -> InterconnectView
    decreases n,
{
    if n == 0 {
        v
    } else {
        let v1 = spec_dma_steps(v, src, (n - 1) as nat);
        let i = (n - 1) as u16;
        InterconnectView {
            gpu: GpuView {
                oam: spec_set_oam(v1.gpu.oam, i, spec_read(v1, (src + i) as u16)),
                ..v1.gpu
            },
            ..v1
        }
    }
}

/// State after a write of `val` at offset `o` of [0xff00, 0xff7f]
#[verifier::opaque]
pub open spec fn spec_io_write(v: InterconnectView, o: u8, val: u8) -> InterconnectView {
    if o == 0x00 {
        InterconnectView {
            buttons: Buttons {
                directions_selected: val & 0x10 == 0,
                buttons_selected: val & 0x20 == 0,
                ..v.buttons
            },
            ..v
        }
    } else if o == 0x04 {
        InterconnectView { timer: Timer { counter_16k: 0, ..v.timer }, ..v }
    } else if o == 0x05 {
        InterconnectView { timer: Timer { counter: val, ..v.timer }, ..v }
    } else if o == 0x06 {
        InterconnectView { timer: Timer { modulo: val, ..v.timer }, ..v }
    } else if o == 0x07 {
        InterconnectView {
            timer: Timer { enabled: val & 4 != 0, divider: spec_divider(val), ..v.timer },
            ..v
        }
    } else if o == 0x0f {
        spec_write_it_flags(v, val)
    } else if spec_is_sound_reg(o) {
        InterconnectView {
            spu: SpuView { regs: spec_spu_write(v.spu.regs, o, val), ..v.spu },
            ..v
        }
    } else if spec_is_gpu_reg(o) {
        InterconnectView {
            gpu: with_gpu_regs(v.gpu, spec_gpu_write(v.gpu.regs, o, val)),
            ..v
        }
    } else if o == 0x44 {
        // LY is read only
        v
    } else if o == 0x46 {
        // OAM DMA: copy 160 bytes from `val * 0x100` to OAM
        spec_dma_steps(
            InterconnectView { regs: v.regs.update(0x46, val), ..v },
            (val * 0x100) as u16,
            0xa0,
        )
    } else {
        InterconnectView { regs: v.regs.update(o as int, val), ..v }
    }
}

/// State after a CPU write of `val` at `addr`
#[verifier::opaque]
pub open spec fn spec_write(v: InterconnectView, addr: u16, val: u8) -> InterconnectView {
    if addr < 0x8000 {
        InterconnectView { cart: spec_write_rom(v.cart, addr, val), ..v }
    } else if addr < 0xa000 {
        InterconnectView {
            gpu: GpuView { vram: v.gpu.vram.update(addr - 0x8000, val), ..v.gpu },
            ..v
        }
    } else if addr < 0xc000 {
        InterconnectView { cart: spec_set_ram_byte(v.cart, (addr - 0xa000) as u16, val), ..v }
    } else if addr < 0xe000 {
        InterconnectView { ram: v.ram.update(addr - 0xc000, val), ..v }
    } else if addr < 0xfe00 {
        InterconnectView { ram: v.ram.update(addr - 0xe000, val), ..v }
    } else if addr < 0xfea0 {
        InterconnectView {
            gpu: GpuView { oam: spec_set_oam(v.gpu.oam, (addr - 0xfe00) as u16, val), ..v.gpu },
            ..v
        }
    } else if addr < 0xff00 {
        v
    } else if addr < 0xff80 {
        spec_io_write(v, (addr - 0xff00) as u8, val)
    } else if addr < 0xffff {
        InterconnectView { hram: v.hram.update(addr - 0xff80, val), ..v }
    } else {
        InterconnectView { it_enable: val, ..v }
    }
}

/// State after one tick of the system clock: the GPU, the SPU and
/// the timer step
pub open spec fn spec_inter_step(v: InterconnectView) -> InterconnectView {
    InterconnectView {
        gpu: spec_gpu_step(v.gpu),
        spu: spec_spu_step(v.spu),
        timer: spec_timer_step(v.timer),
        ..v
    }
}

/// Highest priority interrupt that is both pending and enabled
pub open spec fn spec_next_interrupt(v: InterconnectView) -> Option<Interrupt> {
    if v.it_enable & 1 != 0 && v.gpu.regs.it_vblank {
        Some(Interrupt::VBlank)
    } else if v.it_enable & 2 != 0 && v.gpu.regs.lcd_it_status == LcdItStatus::Triggered {
        Some(Interrupt::Lcdc)
    } else if v.it_enable & 4 != 0 && v.timer.interrupt {
        Some(Interrupt::Timer)
    } else {
        None
    }
}

/// State after acknowledging interrupt `it`
pub open spec fn spec_ack(v: InterconnectView, it: Interrupt) -> InterconnectView {
    match it {
        Interrupt::VBlank => InterconnectView {
            gpu: with_gpu_regs(v.gpu, GpuRegs { it_vblank: false, ..v.gpu.regs }),
            ..v
        },
        Interrupt::Lcdc => InterconnectView {
            gpu: with_gpu_regs(v.gpu, spec_ack_it_lcd(v.gpu.regs)),
            ..v
        },
        Interrupt::Timer => InterconnectView { timer: Timer { interrupt: false, ..v.timer }, ..v },
    }
}

/// Index in the work RAM of the address `addr` of the work RAM or its
/// echo
pub open spec fn spec_ram_index(addr: u16) -> int {
    if addr < 0xe000 {
        addr - 0xc000
    } else {
        addr - 0xe000
    }
}

/// Addresses backed by plain RAM: work RAM, its echo and high RAM
pub open spec fn spec_is_ram(addr: u16) -> bool {
    0xc000 <= addr < 0xfe00 || 0xff80 <= addr < 0xffff
}

/// Memory cell behind a plain RAM address: the bank (0 for work RAM,
/// 1 for high RAM) and the index
pub open spec fn spec_ram_cell(addr: u16) -> (int, int) {
    if addr < 0xfe00 {
        (0, spec_ram_index(addr))
    } else {
        (1, addr - 0xff80)
    }
}

impl Interconnect {
    /// Abstract state
    pub closed spec fn view(&self) -> InterconnectView {
        InterconnectView {
            cart: self.cart@,
            ram: self.ram@,
            hram: self.hram@,
            regs: self.regs@,
            gpu: self.gpu@,
            spu: self.spu@,
            timer: self.timer,
            buttons: self.buttons,
            it_enable: self.it_enable,
        }
    }

    /// Consistent state of every part
    pub closed spec fn wf(&self) -> bool {
        &&& self.cart.wf()
        &&& self.gpu.wf()
        &&& self.spu.wf()
        &&& self.ram@.len() == WORK_RAM_SIZE
        &&& self.hram@.len() == HIGH_RAM_SIZE
        &&& self.regs@.len() == REGS_SIZE
    }

    /// Create a new Interconnect
    pub fn new(cart: Cartridge, gpu: Gpu, spu: Spu) -> (i: Interconnect)
        requires
            cart.wf(),
            gpu.wf(),
            spu.wf(),
        ensures
            i.wf(),
            i@.cart == cart@,
            i@.gpu == gpu@,
            i@.spu == spu@,
            i@.ram == Seq::new(WORK_RAM_SIZE as nat, |j: int| 0xcau8),
            i@.hram == Seq::new(HIGH_RAM_SIZE as nat, |j: int| 0xcau8),
            i@.regs == Seq::new(REGS_SIZE as nat, |j: int| 0u8),
            i@.timer == crate::io::timer::spec_timer_new(),
            i@.buttons.directions_selected == false,
            i@.buttons.buttons_selected == false,
            i@.buttons.buttons == ui::spec_buttons_all(ui::ButtonState::Up),
            i@.it_enable == 0,
    {
        Interconnect {
            cart: cart,
            ram: Ram::new(WORK_RAM_SIZE),
            hram: Ram::new(HIGH_RAM_SIZE),
            regs: Regs::new(),
            gpu: gpu,
            spu: spu,
            timer: Timer::new(),
            buttons: Buttons::new(),
            it_enable: 0,
        }
    }

    /// Clear the IO registers without a dedicated peripheral and the
    /// interrupt enable register
    pub fn reset(&mut self)
        requires
            old(self).wf(),
        ensures
            final(self).wf(),
            final(self)@ == (InterconnectView {
                regs: Seq::new(REGS_SIZE as nat, |j: int| 0u8),
                it_enable: 0,
                ..old(self)@
            }),
    {
        self.regs.reset();
        self.it_enable = 0;
    }

    /// Called at each tick of the system clock
    pub fn step(&mut self)
        requires
            old(self).wf(),
        ensures
            final(self).wf(),
            final(self)@ == spec_inter_step(old(self)@),
    {
        self.gpu.step();
        self.spu.step();
        self.timer.step();
    }

    /// Value of the IO register at offset `o`
    fn io_byte(&self, o: u8) -> (r: u8)
        requires
            self.wf(),
            o < 0x80,
        ensures
            r == spec_io_read(self@, o),
    {
        match o {
            0x00 => self.buttons.input(),
            0x04 => self.timer.div(),
            0x05 => self.timer.counter(),
            0x06 => self.timer.modulo(),
            0x07 => self.timer.config(),
            0x0f => {
                let t: u8 = if self.timer.interrupt() {
                    4
                } else {
                    0
                };
                let l: u8 = if self.gpu.it_lcd() {
                    2
                } else {
                    0
                };
                let b: u8 = if self.gpu.it_vblank() {
                    1
                } else {
                    0
                };
                0xe0 + t + l + b
            },
            0x10 => self.spu.nr10(),
            0x11 => self.spu.nr11(),
            0x12 => self.spu.nr12(),
            0x13 => self.spu.nr13(),
            0x14 => self.spu.nr14(),
            0x16 => self.spu.nr21(),
            0x17 => self.spu.nr22(),
            0x18 => self.spu.nr23(),
            0x19 => self.spu.nr24(),
            0x1a => self.spu.nr30(),
            0x1b => self.spu.nr31(),
            0x1c => self.spu.nr32(),
            0x1d => self.spu.nr33(),
            0x1e => self.spu.nr34(),
            0x20 => self.spu.nr41(),
            0x21 => self.spu.nr42(),
            0x22 => self.spu.nr43(),
            0x23 => self.spu.nr44(),
            0x24 => self.spu.nr50(),
            0x25 => self.spu.nr51(),
            0x26 => self.spu.nr52(),
            0x40 => self.gpu.lcdc(),
            0x41 => self.gpu.stat(),
            0x42 => self.gpu.scy(),
            0x43 => self.gpu.scx(),
            0x44 => self.gpu.line(),
            0x45 => self.gpu.lyc(),
            0x47 => self.gpu.bgp(),
            0x48 => self.gpu.obp0(),
            0x49 => self.gpu.obp1(),
            0x4a => self.gpu.wy(),
            0x4b => self.gpu.wx(),
            _ => if 0x30 <= o && o <= 0x3f {
                self.spu.nr3_ram(o - 0x30)
            } else {
                self.regs.get_byte(o)
            },
        }
    }

    /// Get byte from peripheral mapped at `addr`
    pub fn get_byte(&self, addr: u16) -> (r: u8)
        requires
            self.wf(),
        ensures
            r == spec_read(self@, addr),
    {
        proof {
            reveal(spec_read);
        }
        if addr < 0x8000 {
            self.cart.rom_byte(addr)
        } else if addr < 0xa000 {
            self.gpu.vram(addr - 0x8000)
        } else if addr < 0xc000 {
            self.cart.ram_byte(addr - 0xa000)
        } else if addr < 0xe000 {
            self.ram.byte(addr - 0xc000)
        } else if addr < 0xfe00 {
            self.ram.byte(addr - 0xe000)
        } else if addr < 0xfea0 {
            self.gpu.oam(addr - 0xfe00)
        } else if addr < 0xff00 {
            0
        } else if addr < 0xff80 {
            self.io_byte((addr - 0xff00) as u8)
        } else if addr < 0xffff {
            self.hram.byte(addr - 0xff80)
        } else {
            self.it_enable
        }
    }

    /// Write to a sound register
    fn set_sound_reg(&mut self, o: u8, val: u8)
        requires
            old(self).wf(),
            spec_is_sound_reg(o),
        ensures
            final(self).wf(),
            final(self)@ == (InterconnectView {
                spu: SpuView { regs: spec_spu_write(old(self)@.spu.regs, o, val), ..old(self)@.spu },
                ..old(self)@
            }),
    {
        self.spu.write_register(o, val);
    }

    /// Write to a GPU register
    fn set_gpu_reg(&mut self, o: u8, val: u8)
        requires
            old(self).wf(),
            spec_is_gpu_reg(o),
        ensures
            final(self).wf(),
            final(self)@ == (InterconnectView {
                gpu: with_gpu_regs(old(self)@.gpu, spec_gpu_write(old(self)@.gpu.regs, o, val)),
                ..old(self)@
            }),
    {
        self.gpu.write_register(o, val);
    }

    /// Copy 160 bytes from `src` to the OAM
    fn dma(&mut self, src: u16)
        requires
            old(self).wf(),
            src % 0x100 == 0,
        ensures
            final(self).wf(),
            final(self)@ == spec_dma_steps(old(self)@, src, 0xa0),
    {
        proof {
            reveal(spec_dma_steps);
        }
        let ghost v0 = self@;
        let mut i: u16 = 0;
        while i < 0xa0
            invariant
                self.wf(),
                i <= 0xa0,
                src % 0x100 == 0,
                self@ == spec_dma_steps(v0, src, i as nat),
            decreases 0xa0 - i,
        {
            proof {
                reveal(spec_dma_steps);
            }
            let b = self.get_byte(src + i);
            self.gpu.set_oam(i, b);
            i = i + 1;
        }
    }

    /// Force the status of the LCD interrupt
    fn force_it_lcd(&mut self, set: bool)
        requires
            old(self).wf(),
        ensures
            final(self).wf(),
            final(self)@ == (InterconnectView {
                gpu: with_gpu_regs(old(self)@.gpu, spec_force_it_lcd(old(self)@.gpu.regs, set)),
                ..old(self)@
            }),
    {
        self.gpu.force_it_lcd(set);
    }

    /// Force the status of the VBlank interrupt
    fn force_it_vblank(&mut self, set: bool)
        requires
            old(self).wf(),
        ensures
            final(self).wf(),
            final(self)@ == (InterconnectView {
                gpu: with_gpu_regs(old(self)@.gpu, GpuRegs { it_vblank: set, ..old(self)@.gpu.regs }),
                ..old(self)@
            }),
    {
        self.gpu.force_it_vblank(set);
    }

    /// Write to the interrupt flag register: force the interrupt
    /// status of each source
    fn set_it_flags(&mut self, val: u8)
        requires
            old(self).wf(),
        ensures
            final(self).wf(),
            final(self)@ == spec_write_it_flags(old(self)@, val),
    {
        let t = self.timer;
        self.timer = Timer { interrupt: val & 4 != 0, ..t };
        self.force_it_lcd(val & 2 != 0);
        self.force_it_vblank(val & 1 != 0);
    }

    /// Write to the joypad, timer or interrupt flag register
    fn set_control_io(&mut self, o: u8, val: u8)
        requires
            old(self).wf(),
            o == 0x00 || o == 0x04 || o == 0x05 || o == 0x06 || o == 0x07 || o == 0x0f,
        ensures
            final(self).wf(),
            final(self)@ == spec_io_write(old(self)@, o, val),
    {
        proof {
            reveal(spec_io_write);
        }
        if o == 0x0f {
            self.set_it_flags(val);
        } else if o == 0x00 {
            let b = self.buttons;
            self.buttons = Buttons {
                directions_selected: val & 0x10 == 0,
                buttons_selected: val & 0x20 == 0,
                ..b
            };
        } else {
            let t = self.timer;
            self.timer = if o == 0x04 {
                Timer { counter_16k: 0, ..t }
            } else if o == 0x05 {
                Timer { counter: val, ..t }
            } else if o == 0x06 {
                Timer { modulo: val, ..t }
            } else {
                Timer { enabled: val & 4 != 0, divider: Divider::from_field(val), ..t }
            };
        }
    }

    /// Write to an IO register without a dedicated peripheral, or to
    /// the DMA register
    fn set_other_io(&mut self, o: u8, val: u8)
        requires
            old(self).wf(),
            o < 0x80,
            !(o == 0x00 || o == 0x04 || o == 0x05 || o == 0x06 || o == 0x07 || o == 0x0f),
            !spec_is_sound_reg(o),
            !spec_is_gpu_reg(o),
            o != 0x44,
        ensures
            final(self).wf(),
            final(self)@ == spec_io_write(old(self)@, o, val),
    {
        proof {
            reveal(spec_io_write);
        }
        self.regs.set_byte(o, val);
        if o == 0x46 {
            self.dma((val as u16) * 0x100);
        }
    }

    /// Write to the IO register at offset `o`
    fn set_io_byte(&mut self, o: u8, val: u8)
        requires
            old(self).wf(),
            o < 0x80,
        ensures
            final(self).wf(),
            final(self)@ == spec_io_write(old(self)@, o, val),
    {
        proof {
            reveal(spec_io_write);
        }
        if o == 0x00 || o == 0x04 || o == 0x05 || o == 0x06 || o == 0x07 || o == 0x0f {
            self.set_control_io(o, val);
        } else if (0x10 <= o && o <= 0x14) || (0x16 <= o && o <= 0x1e) || (0x20 <= o && o <= 0x26)
            || (0x30 <= o && o <= 0x3f) {
            self.set_sound_reg(o, val);
        } else if 0x40 <= o && o <= 0x4b && o != 0x44 && o != 0x46 {
            self.set_gpu_reg(o, val);
        } else if o == 0x44 {
            // LY is read only
        } else {
            self.set_other_io(o, val);
        }
    }

    /// Store `val` at `addr` below 0x8000: cartridge controller
    fn set_rom_byte(&mut self, addr: u16, val: u8)
        requires
            old(self).wf(),
            addr < 0x8000,
        ensures
            final(self).wf(),
            final(self)@ == spec_write(old(self)@, addr, val),
    {
        proof {
            reveal(spec_write);
        }
        self.cart.set_rom_byte(addr, val);
    }

    /// Store `val` at `addr` in [0x8000, 0x9fff]: video RAM
    fn set_vram_byte(&mut self, addr: u16, val: u8)
        requires
            old(self).wf(),
            0x8000 <= addr < 0xa000,
        ensures
            final(self).wf(),
            final(self)@ == spec_write(old(self)@, addr, val),
    {
        proof {
            reveal(spec_write);
        }
        self.gpu.set_vram(addr - 0x8000, val);
    }

    /// Store `val` at `addr` in [0xa000, 0xbfff]: cartridge RAM
    fn set_cart_ram_byte(&mut self, addr: u16, val: u8)
        requires
            old(self).wf(),
            0xa000 <= addr < 0xc000,
        ensures
            final(self).wf(),
            final(self)@ == spec_write(old(self)@, addr, val),
    {
        proof {
            reveal(spec_write);
        }
        self.cart.set_ram_byte(addr - 0xa000, val);
    }

    /// Store `val` at `addr` in [0xc000, 0xfdff]: work RAM and its echo
    fn set_work_ram_byte(&mut self, addr: u16, val: u8)
        requires
            old(self).wf(),
            0xc000 <= addr < 0xfe00,
        ensures
            final(self).wf(),
            final(self)@ == spec_write(old(self)@, addr, val),
    {
        proof {
            reveal(spec_write);
        }
        let index = if addr < 0xe000 {
            addr - 0xc000
        } else {
            // Echo of the work RAM
            addr - 0xe000
        };
        self.ram.set_byte(index, val);
    }

    /// Store `val` at `addr` from 0xfe00: OAM, IO and high RAM
    fn set_high_byte(&mut self, addr: u16, val: u8)
        requires
            old(self).wf(),
            addr >= 0xfe00,
        ensures
            final(self).wf(),
            final(self)@ == spec_write(old(self)@, addr, val),
    {
        proof {
            reveal(spec_write);
        }
        if addr < 0xfea0 {
            self.gpu.set_oam(addr - 0xfe00, val);
        } else if addr < 0xff00 {
            // Unusable area: writes are ignored
        } else if addr < 0xff80 {
            self.set_io_byte((addr - 0xff00) as u8, val);
        } else if addr < 0xffff {
            self.hram.set_byte(addr - 0xff80, val);
        } else {
            self.it_enable = val;
        }
    }

    /// Store `val` into peripheral mapped at `addr`
    pub fn set_byte(&mut self, addr: u16, val: u8)
        requires
            old(self).wf(),
        ensures
            final(self).wf(),
            final(self)@ == spec_write(old(self)@, addr, val),
    {
        if addr < 0x8000 {
            self.set_rom_byte(addr, val);
        } else if addr < 0xa000 {
            self.set_vram_byte(addr, val);
        } else if addr < 0xc000 {
            self.set_cart_ram_byte(addr, val);
        } else if addr < 0xfe00 {
            self.set_work_ram_byte(addr, val);
        } else {
            self.set_high_byte(addr, val);
        }
    }

    /// Highest priority interrupt that is both pending and enabled
    pub fn next_interrupt(&self) -> (r: Option<Interrupt>)
        ensures
            r == spec_next_interrupt(self@),
    {
        if self.it_enable & 1 != 0 && self.gpu.it_vblank() {
            Some(Interrupt::VBlank)
        } else if self.it_enable & 2 != 0 && self.gpu.it_lcd() {
            Some(Interrupt::Lcdc)
        } else if self.it_enable & 4 != 0 && self.timer.interrupt() {
            Some(Interrupt::Timer)
        } else {
            None
        }
    }

    /// Return the highest priority interrupt that is both pending and
    /// enabled, and acknowledge it
    pub fn next_interrupt_ack(&mut self) -> (r: Option<Interrupt>)
        requires
            old(self).wf(),
        ensures
            final(self).wf(),
            r == spec_next_interrupt(old(self)@),
            r matches Some(it) ==> final(self)@ == spec_ack(old(self)@, it),
            r is None ==> final(self)@ == old(self)@,
    {
        let it = self.next_interrupt();
        match it {
            Some(Interrupt::VBlank) => self.gpu.ack_it_vblank(),
            Some(Interrupt::Lcdc) => self.gpu.ack_it_lcd(),
            Some(Interrupt::Timer) => self.timer.ack_interrupt(),
            None => {},
        }
        it
    }

    /// Update the state of the controller
    pub fn set_buttons(&mut self, buttons: ui::Buttons)
        requires
            old(self).wf(),
        ensures
            final(self).wf(),
            final(self)@ == (InterconnectView {
                buttons: Buttons { buttons: buttons, ..old(self)@.buttons },
                ..old(self)@
            }),
    {
        self.buttons.set_buttons(buttons);
    }

    /// GPU, for the display
    pub fn gpu(&self) -> (g: &Gpu)
        ensures
            g@ == self@.gpu,
            self.wf() ==> g.wf(),
    {
        &self.gpu
    }

    /// Mark the current frame as displayed
    pub fn ack_frame(&mut self)
        requires
            old(self).wf(),
        ensures
            final(self).wf(),
            final(self)@ == (InterconnectView {
                gpu: with_gpu_regs(old(self)@.gpu, GpuRegs { frame_ready: false, ..old(self)@.gpu.regs }),
                ..old(self)@
            }),
    {
        self.gpu.ack_frame();
    }

    /// Take the audio samples produced since the last call
    pub fn take_audio(&mut self) -> (out: Vec<i16>)
        requires
            old(self).wf(),
        ensures
            final(self).wf(),
            out@ == old(self)@.spu.audio_out,
            final(self)@ == (InterconnectView {
                spu: SpuView { audio_out: Seq::empty(), ..old(self)@.spu },
                ..old(self)@
            }),
    {
        self.spu.take_audio()
    }

    /// Cartridge, for saving its RAM
    pub fn cartridge(&self) -> (c: &Cartridge)
        ensures
            c@ == self@.cart,
    {
        &self.cart
    }
}

/// Reading plain RAM gives back the last value written to the same
/// memory cell; writing one cell leaves the others unchanged. The
/// echo area and the work RAM share their cells.
pub proof fn lemma_ram_read_after_write(v: InterconnectView, a: u16, b: u16, val: u8)
    requires
        v.ram.len() == WORK_RAM_SIZE,
        v.hram.len() == HIGH_RAM_SIZE,
        spec_is_ram(a),
        spec_is_ram(b),
    ensures
        spec_ram_cell(a) == spec_ram_cell(b) ==> spec_read(spec_write(v, a, val), b) == val,
        spec_ram_cell(a) != spec_ram_cell(b) ==> spec_read(spec_write(v, a, val), b) == spec_read(
            v,
            b,
        ),
{
    reveal(spec_read);
    reveal(spec_write);
}

/// The echo area reads as the work RAM 0x2000 bytes below.
pub proof fn lemma_echo(v: InterconnectView, a: u16)
    requires
        0xe000 <= a < 0xfe00,
    ensures
        spec_read(v, a) == spec_read(v, (a - 0x2000) as u16),
{
    reveal(spec_read);
}

/// Video RAM and the interrupt enable register read back what was
/// written to them.
pub proof fn lemma_vram_ie_read_after_write(v: InterconnectView, a: u16, val: u8)
    requires
        v.gpu.vram.len() == VRAM_SIZE,
        0x8000 <= a < 0xa000 || a == 0xffff,
    ensures
        spec_read(spec_write(v, a, val), a) == val,
{
    reveal(spec_read);
    reveal(spec_write);
}

} // verus!
