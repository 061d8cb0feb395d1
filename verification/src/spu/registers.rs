//! Sound registers NR10 to NR52 and the sound 3 sample RAM, as seen
//! by the CPU

use vstd::prelude::*;
use crate::spu::{Spu, SpuRegs, SpuView, Mode, Mixer, OutputVolume, Sample, spec_spu_reset,
    spec_mixer, spec_mixer_field, spec_output_volume, spec_output_volume_field, mode_bit};
use crate::spu::envelope::{Envelope, spec_envelope, spec_envelope_reg, spec_dac_enabled,
    lemma_envelope_roundtrip};
use crate::spu::rectangle_wave::{RectangleWave, DutyCycle, Sweep, spec_duty, spec_duty_field,
    spec_sweep, spec_sweep_reg, spec_remaining, lemma_sweep_roundtrip};
use crate::spu::lfsr_wave::{LfsrWave, Lfsr, spec_lfsr, spec_lfsr_reg, lemma_lfsr_roundtrip};
use crate::spu::ram_wave::{RamWave, OutputLevel, spec_output_level, spec_output_level_field,
    spec_ram_remaining};

verus! {

/// Play mode selected by bit 6 of NRx4
pub open spec fn spec_mode_of(val: u8) -> Mode {
    if val & 0x40 != 0 {
        Mode::Counter
    } else {
        Mode::Continuous
    }
}

/// Rectangular wave restarted by the initialize bit
pub open spec fn spec_rectangle_started(w: RectangleWave) -> RectangleWave {
    RectangleWave { envelope: w.start_envelope, running: spec_dac_enabled(w.start_envelope), ..w }
}

/// NRx1 write on a rectangular wave: duty cycle and length
pub open spec fn spec_rectangle_duty_length(w: RectangleWave, val: u8) -> RectangleWave {
    RectangleWave { duty: spec_duty(val / 64), remaining: spec_remaining(val % 64), ..w }
}

/// NRx2 write on a rectangular wave: envelope of the next start, a
/// disabled DAC stops the sound
pub open spec fn spec_rectangle_envelope(w: RectangleWave, val: u8) -> RectangleWave {
    RectangleWave {
        start_envelope: spec_envelope(val),
        running: w.running && spec_dac_enabled(spec_envelope(val)),
        ..w
    }
}

/// Divider with its low 8 bits replaced by `val`
pub open spec fn spec_divider_low(d: u16, val: u8) -> u16 {
    ((d / 256) * 256 + val) as u16
}

/// Divider with its bits [10:8] replaced by bits [2:0] of `val`
pub open spec fn spec_divider_high(d: u16, val: u8) -> u16 {
    (d % 256 + (val % 8) * 256) as u16
}

/// NRx4 write on a rectangular wave: divider high bits, mode and
/// initialize bit
pub open spec fn spec_rectangle_high(w: RectangleWave, val: u8) -> RectangleWave {
    let w1 = RectangleWave {
        divider: spec_divider_high(w.divider, val),
        mode: spec_mode_of(val),
        ..w
    };
    if val & 0x80 != 0 {
        spec_rectangle_started(w1)
    } else {
        w1
    }
}

/// NR34 write on the wave channel: divider high bits, mode and
/// initialize bit
pub open spec fn spec_ram_wave_high(w: RamWave, val: u8) -> RamWave {
    let w1 = RamWave { divider: spec_divider_high(w.divider, val), mode: spec_mode_of(val), ..w };
    if val & 0x80 != 0 {
        RamWave { running: w1.enabled, index: 0, counter: 0, ..w1 }
    } else {
        w1
    }
}

/// NR44 write on the noise channel: mode and initialize bit
pub open spec fn spec_lfsr_wave_high(w: LfsrWave, val: u8) -> LfsrWave {
    let w1 = LfsrWave { mode: spec_mode_of(val), ..w };
    if val & 0x80 != 0 {
        LfsrWave { envelope: w1.start_envelope, running: true, ..w1 }
    } else {
        w1
    }
}

/// Register write that only takes effect while the SPU is enabled
pub open spec fn spec_if_enabled(r: SpuRegs, n: SpuRegs) -> SpuRegs {
    if r.enabled {
        n
    } else {
        r
    }
}

pub open spec fn spec_nr10(r: SpuRegs) -> u8 {
    spec_sweep_reg(r.sound1.sweep)
}

pub open spec fn spec_set_nr10(r: SpuRegs, val: u8) -> SpuRegs {
    spec_if_enabled(r, SpuRegs { sound1: RectangleWave { sweep: spec_sweep(val), ..r.sound1 }, ..r })
}

pub open spec fn spec_nr11(r: SpuRegs) -> u8 {
    (spec_duty_field(r.sound1.duty) * 64 + 0x3f) as u8
}

pub open spec fn spec_set_nr11(r: SpuRegs, val: u8) -> SpuRegs {
    spec_if_enabled(r, SpuRegs { sound1: spec_rectangle_duty_length(r.sound1, val), ..r })
}

pub open spec fn spec_nr12(r: SpuRegs) -> u8 {
    spec_envelope_reg(r.sound1.start_envelope)
}

pub open spec fn spec_set_nr12(r: SpuRegs, val: u8) -> SpuRegs {
    spec_if_enabled(r, SpuRegs { sound1: spec_rectangle_envelope(r.sound1, val), ..r })
}

pub open spec fn spec_set_nr13(r: SpuRegs, val: u8) -> SpuRegs {
    spec_if_enabled(
        r,
        SpuRegs {
            sound1: RectangleWave {
                divider: spec_divider_low(r.sound1.divider, val),
                ..r.sound1
            },
            ..r
        },
    )
}

pub open spec fn spec_nr14(r: SpuRegs) -> u8 {
    (mode_bit(r.sound1.mode) * 64 + 0xbf) as u8
}

pub open spec fn spec_set_nr14(r: SpuRegs, val: u8) -> SpuRegs {
    spec_if_enabled(r, SpuRegs { sound1: spec_rectangle_high(r.sound1, val), ..r })
}

pub open spec fn spec_nr21(r: SpuRegs) -> u8 {
    (spec_duty_field(r.sound2.duty) * 64 + 0x3f) as u8
}

pub open spec fn spec_set_nr21(r: SpuRegs, val: u8) -> SpuRegs {
    spec_if_enabled(r, SpuRegs { sound2: spec_rectangle_duty_length(r.sound2, val), ..r })
}

pub open spec fn spec_nr22(r: SpuRegs) -> u8 {
    spec_envelope_reg(r.sound2.start_envelope)
}

pub open spec fn spec_set_nr22(r: SpuRegs, val: u8) -> SpuRegs {
    spec_if_enabled(r, SpuRegs { sound2: spec_rectangle_envelope(r.sound2, val), ..r })
}

pub open spec fn spec_set_nr23(r: SpuRegs, val: u8) -> SpuRegs {
    spec_if_enabled(
        r,
        SpuRegs {
            sound2: RectangleWave {
                divider: spec_divider_low(r.sound2.divider, val),
                ..r.sound2
            },
            ..r
        },
    )
}

pub open spec fn spec_nr24(r: SpuRegs) -> u8 {
    (mode_bit(r.sound2.mode) * 64 + 0xbf) as u8
}

pub open spec fn spec_set_nr24(r: SpuRegs, val: u8) -> SpuRegs {
    spec_if_enabled(r, SpuRegs { sound2: spec_rectangle_high(r.sound2, val), ..r })
}

pub open spec fn spec_nr30(r: SpuRegs) -> u8 {
    ((if r.sound3.enabled { 0x80int } else { 0 }) + 0x7f) as u8
}

pub open spec fn spec_set_nr30(r: SpuRegs, val: u8) -> SpuRegs {
    let enabled = val & 0x80 != 0;
    spec_if_enabled(
        r,
        SpuRegs {
            sound3: RamWave { enabled: enabled, running: r.sound3.running && enabled, ..r.sound3 },
            ..r
        },
    )
}

pub open spec fn spec_set_nr31(r: SpuRegs, val: u8) -> SpuRegs {
    spec_if_enabled(
        r,
        SpuRegs { sound3: RamWave { remaining: spec_ram_remaining(val), ..r.sound3 }, ..r },
    )
}

pub open spec fn spec_nr32(r: SpuRegs) -> u8 {
    (spec_output_level_field(r.sound3.output_level) * 32 + 0x9f) as u8
}

pub open spec fn spec_set_nr32(r: SpuRegs, val: u8) -> SpuRegs {
    spec_if_enabled(
        r,
        SpuRegs {
            sound3: RamWave { output_level: spec_output_level((val / 32) % 4), ..r.sound3 },
            ..r
        },
    )
}

pub open spec fn spec_set_nr33(r: SpuRegs, val: u8) -> SpuRegs {
    spec_if_enabled(
        r,
        SpuRegs {
            sound3: RamWave { divider: spec_divider_low(r.sound3.divider, val), ..r.sound3 },
            ..r
        },
    )
}

pub open spec fn spec_nr34(r: SpuRegs) -> u8 {
    (mode_bit(r.sound3.mode) * 64 + 0xbf) as u8
}

pub open spec fn spec_set_nr34(r: SpuRegs, val: u8) -> SpuRegs {
    spec_if_enabled(r, SpuRegs { sound3: spec_ram_wave_high(r.sound3, val), ..r })
}

pub open spec fn spec_set_nr41(r: SpuRegs, val: u8) -> SpuRegs {
    spec_if_enabled(
        r,
        SpuRegs { sound4: LfsrWave { remaining: spec_remaining(val % 64), ..r.sound4 }, ..r },
    )
}

pub open spec fn spec_nr42(r: SpuRegs) -> u8 {
    spec_envelope_reg(r.sound4.start_envelope)
}

pub open spec fn spec_set_nr42(r: SpuRegs, val: u8) -> SpuRegs {
    spec_if_enabled(
        r,
        SpuRegs { sound4: LfsrWave { start_envelope: spec_envelope(val), ..r.sound4 }, ..r },
    )
}

pub open spec fn spec_nr43(r: SpuRegs) -> u8 {
    spec_lfsr_reg(r.sound4.lfsr)
}

pub open spec fn spec_set_nr43(r: SpuRegs, val: u8) -> SpuRegs {
    spec_if_enabled(r, SpuRegs { sound4: LfsrWave { lfsr: spec_lfsr(val), ..r.sound4 }, ..r })
}

pub open spec fn spec_nr44(r: SpuRegs) -> u8 {
    (mode_bit(r.sound4.mode) * 64 + 0xbf) as u8
}

pub open spec fn spec_set_nr44(r: SpuRegs, val: u8) -> SpuRegs {
    spec_if_enabled(r, SpuRegs { sound4: spec_lfsr_wave_high(r.sound4, val), ..r })
}

pub open spec fn spec_nr50(r: SpuRegs) -> u8 {
    (spec_output_volume_field(r.so2.volume) * 16 + spec_output_volume_field(r.so1.volume)) as u8
}

pub open spec fn spec_set_nr50(r: SpuRegs, val: u8) -> SpuRegs {
    spec_if_enabled(
        r,
        SpuRegs {
            so1: crate::spu::SoundOutput { volume: spec_output_volume(val % 16), ..r.so1 },
            so2: crate::spu::SoundOutput { volume: spec_output_volume(val / 16), ..r.so2 },
            ..r
        },
    )
}

pub open spec fn spec_nr51(r: SpuRegs) -> u8 {
    (spec_mixer_field(r.so2.mixer) * 16 + spec_mixer_field(r.so1.mixer)) as u8
}

pub open spec fn spec_set_nr51(r: SpuRegs, val: u8) -> SpuRegs {
    spec_if_enabled(
        r,
        SpuRegs {
            so1: crate::spu::SoundOutput { mixer: spec_mixer(val % 16), ..r.so1 },
            so2: crate::spu::SoundOutput { mixer: spec_mixer(val / 16), ..r.so2 },
            ..r
        },
    )
}

/// 1 for a set flag, 0 otherwise
pub open spec fn flag(b: bool) -> int {
    if b {
        1
    } else {
        0
    }
}

pub open spec fn spec_nr52(r: SpuRegs) -> u8 {
    (flag(r.enabled) * 0x80 + 0x70 + flag(r.sound4.running) * 8 + flag(r.sound3.running) * 4
        + flag(r.sound2.running) * 2 + flag(r.sound1.running)) as u8
}

/// Bit 7 enables the SPU, disabling it resets all the sound
/// registers (but the sample RAM)
pub open spec fn spec_set_nr52(r: SpuRegs, val: u8) -> SpuRegs {
    let enabled = val & 0x80 != 0;
    if enabled {
        SpuRegs { enabled: true, ..r }
    } else {
        spec_spu_reset(SpuRegs { enabled: false, ..r })
    }
}

/// Value of sample RAM register `index`: two 4 bit samples
pub open spec fn spec_nr3_ram(r: SpuRegs, index: int) -> u8 {
    (r.sound3.ram@[2 * index] * 16 + r.sound3.ram@[2 * index + 1]) as u8
}

/// Sample RAM after writing `val` to register `index`
pub open spec fn spec_set_nr3_ram(r: SpuRegs, index: int, val: u8) -> SpuRegs {
    SpuRegs {
        sound3: RamWave {
            ram: vstd::array::spec_array_update(
                vstd::array::spec_array_update(r.sound3.ram, 2 * index, val / 16),
                2 * index + 1,
                val % 16,
            ),
            ..r.sound3
        },
        ..r
    }
}

/// Sound registers after a write of `val` at offset `o` (in
/// [0x10, 0x3f]) of the IO space
pub open spec fn spec_spu_write(r: SpuRegs, o: u8, val: u8) -> SpuRegs {
    match o {
        0x10 => spec_set_nr10(r, val),
        0x11 => spec_set_nr11(r, val),
        0x12 => spec_set_nr12(r, val),
        0x13 => spec_set_nr13(r, val),
        0x14 => spec_set_nr14(r, val),
        0x16 => spec_set_nr21(r, val),
        0x17 => spec_set_nr22(r, val),
        0x18 => spec_set_nr23(r, val),
        0x19 => spec_set_nr24(r, val),
        0x1a => spec_set_nr30(r, val),
        0x1b => spec_set_nr31(r, val),
        0x1c => spec_set_nr32(r, val),
        0x1d => spec_set_nr33(r, val),
        0x1e => spec_set_nr34(r, val),
        0x20 => spec_set_nr41(r, val),
        0x21 => spec_set_nr42(r, val),
        0x22 => spec_set_nr43(r, val),
        0x23 => spec_set_nr44(r, val),
        0x24 => spec_set_nr50(r, val),
        0x25 => spec_set_nr51(r, val),
        0x26 => spec_set_nr52(r, val),
        _ => spec_set_nr3_ram(r, (o - 0x30) as int, val),
    }
}

/// Offsets of [0xff00, 0xff7f] handled by the sound processing unit
pub open spec fn spec_is_sound_reg(o: u8) -> bool {
    ||| (0x10 <= o <= 0x14)
    ||| (0x16 <= o <= 0x1e)
    ||| (0x20 <= o <= 0x26)
    ||| (0x30 <= o <= 0x3f)
}

/// Bit identities behind the register layouts
proof fn lemma_register_bits(v: u8)
    by (bit_vector)
    ensures
        (v / 64) * 64 + 0x3f == v | 0x3f,
        (if v & 0x40 != 0 { 64u8 } else { 0u8 }) + 0xbf == v | 0xbf,
        (if v & 0x80 != 0 { 0x80u8 } else { 0u8 }) + 0x7f == v | 0x7f,
        ((v / 32) % 4) * 32 + 0x9f == v | 0x9f,
        v | 0xff == 0xff,
        v | 0 == v,
        (v / 16) * 16 + v % 16 == v,
        (if (v % 16) & 8 != 0 { 8u8 } else { 0u8 }) + (v % 16) % 8 == v % 16,
        (if (v / 16) & 8 != 0 { 8u8 } else { 0u8 }) + (v / 16) % 8 == v / 16,
        (if (v % 16) & 1 != 0 { 1u8 } else { 0u8 }) + (if (v % 16) & 2 != 0 { 2u8 } else { 0u8 })
            + (if (v % 16) & 4 != 0 { 4u8 } else { 0u8 }) + (if (v % 16) & 8 != 0 {
            8u8
        } else {
            0u8
        }) == v % 16,
        (if (v / 16) & 1 != 0 { 1u8 } else { 0u8 }) + (if (v / 16) & 2 != 0 { 2u8 } else { 0u8 })
            + (if (v / 16) & 4 != 0 { 4u8 } else { 0u8 }) + (if (v / 16) & 8 != 0 {
            8u8
        } else {
            0u8
        }) == v / 16,
        v & 0x80 != 0 <==> v >= 0x80,
{
}

/// Register readback: while the SPU is enabled, reading a register
/// after writing `v` to it gives `v` with its write-only bits set.
pub proof fn lemma_register_readback(r: SpuRegs, v: u8)
    requires
        r.wf(),
        r.enabled,
    ensures
        spec_nr10(spec_set_nr10(r, v)) == v | 0x80,
        spec_nr11(spec_set_nr11(r, v)) == v | 0x3f,
        spec_nr12(spec_set_nr12(r, v)) == v | 0x00,
        0xff == v | 0xff,
        spec_nr14(spec_set_nr14(r, v)) == v | 0xbf,
        spec_nr21(spec_set_nr21(r, v)) == v | 0x3f,
        spec_nr22(spec_set_nr22(r, v)) == v | 0x00,
        spec_nr24(spec_set_nr24(r, v)) == v | 0xbf,
        spec_nr30(spec_set_nr30(r, v)) == v | 0x7f,
        spec_nr32(spec_set_nr32(r, v)) == v | 0x9f,
        spec_nr34(spec_set_nr34(r, v)) == v | 0xbf,
        spec_nr42(spec_set_nr42(r, v)) == v | 0x00,
        spec_nr43(spec_set_nr43(r, v)) == v | 0x00,
        spec_nr44(spec_set_nr44(r, v)) == v | 0xbf,
        spec_nr50(spec_set_nr50(r, v)) == v | 0x00,
        spec_nr51(spec_set_nr51(r, v)) == v | 0x00,
{
    lemma_register_bits(v);
    lemma_sweep_roundtrip(v);
    lemma_envelope_roundtrip(v);
    lemma_lfsr_roundtrip(v);
    assert(spec_duty_field(spec_duty(v / 64)) == v / 64);
    assert(spec_output_level_field(spec_output_level((v / 32) % 4)) == (v / 32) % 4);
}

/// Disabling the SPU clears every register, writes are ignored while
/// it is disabled and enabling it again changes no register: after
/// that sequence each register reads as its write-only bits.
pub proof fn lemma_register_reset(r: SpuRegs, v: u8, off: u8, on: u8)
    requires
        r.wf(),
        off & 0x80 == 0,
        on & 0x80 != 0,
    ensures
        ({
            let d = spec_set_nr52(r, off);
            &&& spec_nr10(spec_set_nr52(spec_set_nr10(d, v), on)) == 0x80
            &&& spec_nr11(spec_set_nr52(spec_set_nr11(d, v), on)) == 0x3f
            &&& spec_nr12(spec_set_nr52(spec_set_nr12(d, v), on)) == 0x00
            &&& spec_nr14(spec_set_nr52(spec_set_nr14(d, v), on)) == 0xbf
            &&& spec_nr21(spec_set_nr52(spec_set_nr21(d, v), on)) == 0x3f
            &&& spec_nr22(spec_set_nr52(spec_set_nr22(d, v), on)) == 0x00
            &&& spec_nr24(spec_set_nr52(spec_set_nr24(d, v), on)) == 0xbf
            &&& spec_nr30(spec_set_nr52(spec_set_nr30(d, v), on)) == 0x7f
            &&& spec_nr32(spec_set_nr52(spec_set_nr32(d, v), on)) == 0x9f
            &&& spec_nr34(spec_set_nr52(spec_set_nr34(d, v), on)) == 0xbf
            &&& spec_nr42(spec_set_nr52(spec_set_nr42(d, v), on)) == 0x00
            &&& spec_nr43(spec_set_nr52(spec_set_nr43(d, v), on)) == 0x00
            &&& spec_nr44(spec_set_nr52(spec_set_nr44(d, v), on)) == 0xbf
            &&& spec_nr50(spec_set_nr52(spec_set_nr50(d, v), on)) == 0x00
            &&& spec_nr51(spec_set_nr52(spec_set_nr51(d, v), on)) == 0x00
        }),
{
    lemma_sweep_roundtrip(0);
    lemma_envelope_roundtrip(0);
    lemma_lfsr_roundtrip(0);
    lemma_register_bits(0);
}

/// Reading a sample RAM register gives back the value last written to
/// it, whatever the state of the SPU.
pub proof fn lemma_wave_ram_readback(r: SpuRegs, index: int, v: u8)
    requires
        0 <= index < 16,
    ensures
        spec_nr3_ram(spec_set_nr3_ram(r, index, v), index) == v,
{
    broadcast use vstd::array::group_array_axioms;

    lemma_register_bits(v);
}

impl Spu {
    /// Retrieve sound 1 sweep function
    pub fn nr10(&self) -> (r: u8)
        requires
            self.wf(),
        ensures
            r == spec_nr10(self@.regs),
    {
        self.regs.sound1.sweep().into_reg()
    }

    /// Configure sound 1 sweep function
    pub fn set_nr10(&mut self, val: u8)
        requires
            old(self).wf(),
        ensures
            final(self).wf(),
            final(self)@ == (SpuView { regs: spec_set_nr10(old(self)@.regs, val), ..old(self)@ }),
    {
        if !self.regs.enabled {
            return ;
        }
        let sweep = Sweep::from_reg(val);
        self.regs.sound1.set_sweep(sweep);
    }

    /// Retrieve sound 1 duty cycle. The rest is write only.
    pub fn nr11(&self) -> (r: u8)
        requires
            self.wf(),
        ensures
            r == spec_nr11(self@.regs),
    {
        let duty = self.regs.sound1.duty().into_field();
        duty * 64 + 0x3f
    }

    /// Configure sound 1 length and duty cycle
    pub fn set_nr11(&mut self, val: u8)
        requires
            old(self).wf(),
        ensures
            final(self).wf(),
            final(self)@ == (SpuView { regs: spec_set_nr11(old(self)@.regs, val), ..old(self)@ }),
    {
        if !self.regs.enabled {
            return ;
        }
        let duty = DutyCycle::from_field(val / 64);
        self.regs.sound1.set_duty(duty);
        self.regs.sound1.set_length(val % 64);
    }

    /// Retrieve envelope config for sound 1
    pub fn nr12(&self) -> (r: u8)
        requires
            self.wf(),
        ensures
            r == spec_nr12(self@.regs),
    {
        self.regs.sound1.envelope().into_reg()
    }

    /// Configure envelope: initial volume, step duration and
    /// direction
    pub fn set_nr12(&mut self, val: u8)
        requires
            old(self).wf(),
        ensures
            final(self).wf(),
            final(self)@ == (SpuView { regs: spec_set_nr12(old(self)@.regs, val), ..old(self)@ }),
    {
        if !self.regs.enabled {
            return ;
        }
        let envelope = Envelope::from_reg(val);
        self.regs.sound1.set_envelope(envelope);
    }

    /// NR13 is write only
    pub fn nr13(&self) -> (r: u8)
        ensures
            r == 0xff,
    {
        0xff
    }

    /// Set frequency divider bits [7:0]
    pub fn set_nr13(&mut self, val: u8)
        requires
            old(self).wf(),
        ensures
            final(self).wf(),
            final(self)@ == (SpuView { regs: spec_set_nr13(old(self)@.regs, val), ..old(self)@ }),
    {
        if !self.regs.enabled {
            return ;
        }
        let d = self.regs.sound1.divider();
        self.regs.sound1.set_divider((d / 256) * 256 + val as u16);
    }

    /// Retrieve mode. Other NR14 fields are write only
    pub fn nr14(&self) -> (r: u8)
        ensures
            r == spec_nr14(self@.regs),
    {
        self.regs.sound1.mode().value() * 64 + 0xbf
    }

    /// Set frequency bits [10:8], Mode and Initialize bit
    pub fn set_nr14(&mut self, val: u8)
        requires
            old(self).wf(),
        ensures
            final(self).wf(),
            final(self)@ == (SpuView { regs: spec_set_nr14(old(self)@.regs, val), ..old(self)@ }),
    {
        if !self.regs.enabled {
            return ;
        }
        let d = self.regs.sound1.divider();
        self.regs.sound1.set_divider(d % 256 + ((val % 8) as u16) * 256);
        self.regs.sound1.set_mode(
            if val & 0x40 != 0 {
                Mode::Counter
            } else {
                Mode::Continuous
            },
        );
        // Initialize bit
        if val & 0x80 != 0 {
            self.regs.sound1.start();
        }
    }

    /// Retrieve sound 2 duty cycle. Length field is write only.
    pub fn nr21(&self) -> (r: u8)
        requires
            self.wf(),
        ensures
            r == spec_nr21(self@.regs),
    {
        let duty = self.regs.sound2.duty().into_field();
        duty * 64 + 0x3f
    }

    /// Configure sound 2 sound length and duty cycle
    pub fn set_nr21(&mut self, val: u8)
        requires
            old(self).wf(),
        ensures
            final(self).wf(),
            final(self)@ == (SpuView { regs: spec_set_nr21(old(self)@.regs, val), ..old(self)@ }),
    {
        if !self.regs.enabled {
            return ;
        }
        let duty = DutyCycle::from_field(val / 64);
        self.regs.sound2.set_duty(duty);
        self.regs.sound2.set_length(val % 64);
    }

    /// Retrieve envelope config for sound 2
    pub fn nr22(&self) -> (r: u8)
        requires
            self.wf(),
        ensures
            r == spec_nr22(self@.regs),
    {
        self.regs.sound2.envelope().into_reg()
    }

    /// Configure envelope: initial volume, step duration and
    /// direction
    pub fn set_nr22(&mut self, val: u8)
        requires
            old(self).wf(),
        ensures
            final(self).wf(),
            final(self)@ == (SpuView { regs: spec_set_nr22(old(self)@.regs, val), ..old(self)@ }),
    {
        if !self.regs.enabled {
            return ;
        }
        let envelope = Envelope::from_reg(val);
        self.regs.sound2.set_envelope(envelope);
    }

    /// NR23 is write only
    pub fn nr23(&self) -> (r: u8)
        ensures
            r == 0xff,
    {
        0xff
    }

    /// Set frequency divider bits [7:0]
    pub fn set_nr23(&mut self, val: u8)
        requires
            old(self).wf(),
        ensures
            final(self).wf(),
            final(self)@ == (SpuView { regs: spec_set_nr23(old(self)@.regs, val), ..old(self)@ }),
    {
        if !self.regs.enabled {
            return ;
        }
        let d = self.regs.sound2.divider();
        self.regs.sound2.set_divider((d / 256) * 256 + val as u16);
    }

    /// Retrieve mode. Other NR24 fields are write only
    pub fn nr24(&self) -> (r: u8)
        ensures
            r == spec_nr24(self@.regs),
    {
        self.regs.sound2.mode().value() * 64 + 0xbf
    }

    /// Set frequency bits [10:8], Mode and Initialize bit
    pub fn set_nr24(&mut self, val: u8)
        requires
            old(self).wf(),
        ensures
            final(self).wf(),
            final(self)@ == (SpuView { regs: spec_set_nr24(old(self)@.regs, val), ..old(self)@ }),
    {
        if !self.regs.enabled {
            return ;
        }
        let d = self.regs.sound2.divider();
        self.regs.sound2.set_divider(d % 256 + ((val % 8) as u16) * 256);
        self.regs.sound2.set_mode(
            if val & 0x40 != 0 {
                Mode::Counter
            } else {
                Mode::Continuous
            },
        );
        // Initialize bit
        if val & 0x80 != 0 {
            self.regs.sound2.start();
        }
    }

    /// Retrieve sound 3 enable
    pub fn nr30(&self) -> (r: u8)
        ensures
            r == spec_nr30(self@.regs),
    {
        if self.regs.sound3.enabled() {
            0xff
        } else {
            0x7f
        }
    }

    /// Set sound 3 enable
    pub fn set_nr30(&mut self, val: u8)
        requires
            old(self).wf(),
        ensures
            final(self).wf(),
            final(self)@ == (SpuView { regs: spec_set_nr30(old(self)@.regs, val), ..old(self)@ }),
    {
        if !self.regs.enabled {
            return ;
        }
        self.regs.sound3.set_enabled(val & 0x80 != 0);
    }

    /// NR31 is write only
    pub fn nr31(&self) -> (r: u8)
        ensures
            r == 0xff,
    {
        0xff
    }

    /// Configure sound 3 sound length
    pub fn set_nr31(&mut self, val: u8)
        requires
            old(self).wf(),
        ensures
            final(self).wf(),
            final(self)@ == (SpuView { regs: spec_set_nr31(old(self)@.regs, val), ..old(self)@ }),
    {
        if !self.regs.enabled {
            return ;
        }
        self.regs.sound3.set_length(val);
    }

    /// Retrieve sound 3 output level
    pub fn nr32(&self) -> (r: u8)
        ensures
            r == spec_nr32(self@.regs),
    {
        let level = self.regs.sound3.output_level().into_field();
        level * 32 + 0x9f
    }

    /// Configure sound 3 output level
    pub fn set_nr32(&mut self, val: u8)
        requires
            old(self).wf(),
        ensures
            final(self).wf(),
            final(self)@ == (SpuView { regs: spec_set_nr32(old(self)@.regs, val), ..old(self)@ }),
    {
        if !self.regs.enabled {
            return ;
        }
        let level = OutputLevel::from_field((val / 32) % 4);
        self.regs.sound3.set_output_level(level);
    }

    /// NR33 is write only
    pub fn nr33(&self) -> (r: u8)
        ensures
            r == 0xff,
    {
        0xff
    }

    /// Set frequency divider bits [7:0]
    pub fn set_nr33(&mut self, val: u8)
        requires
            old(self).wf(),
        ensures
            final(self).wf(),
            final(self)@ == (SpuView { regs: spec_set_nr33(old(self)@.regs, val), ..old(self)@ }),
    {
        if !self.regs.enabled {
            return ;
        }
        let d = self.regs.sound3.divider();
        self.regs.sound3.set_divider((d / 256) * 256 + val as u16);
    }

    /// Retrieve mode. Other NR34 fields are write only
    pub fn nr34(&self) -> (r: u8)
        ensures
            r == spec_nr34(self@.regs),
    {
        self.regs.sound3.mode().value() * 64 + 0xbf
    }

    /// Set frequency bits [10:8], Mode and Initialize bit
    pub fn set_nr34(&mut self, val: u8)
        requires
            old(self).wf(),
        ensures
            final(self).wf(),
            final(self)@ == (SpuView { regs: spec_set_nr34(old(self)@.regs, val), ..old(self)@ }),
    {
        if !self.regs.enabled {
            return ;
        }
        let d = self.regs.sound3.divider();
        self.regs.sound3.set_divider(d % 256 + ((val % 8) as u16) * 256);
        self.regs.sound3.set_mode(
            if val & 0x40 != 0 {
                Mode::Counter
            } else {
                Mode::Continuous
            },
        );
        // Initialize bit
        if val & 0x80 != 0 {
            self.regs.sound3.start();
        }
    }

    /// Write to sound 3 sample RAM. There are two 4bit samples per
    /// 8bit register
    pub fn set_nr3_ram(&mut self, index: u8, val: u8)
        requires
            old(self).wf(),
            index < 16,
        ensures
            final(self).wf(),
            final(self)@ == (SpuView {
                regs: spec_set_nr3_ram(old(self)@.regs, index as int, val),
                ..old(self)@
            }),
    {
        let index = index * 2;
        let s0: Sample = val / 16;
        let s1: Sample = val % 16;
        self.regs.sound3.set_ram_sample(index, s0);
        self.regs.sound3.set_ram_sample(index + 1, s1);
        proof {
            broadcast use vstd::array::group_array_axioms;

        }
    }

    /// Retrieve sound 3 sample RAM register value
    pub fn nr3_ram(&self, index: u8) -> (r: u8)
        requires
            self.wf(),
            index < 16,
        ensures
            r == spec_nr3_ram(self@.regs, index as int),
    {
        let index = index * 2;
        let s0 = self.regs.sound3.ram_sample(index);
        let s1 = self.regs.sound3.ram_sample(index + 1);
        s0 * 16 + s1
    }

    /// NR41 is write only
    pub fn nr41(&self) -> (r: u8)
        ensures
            r == 0xff,
    {
        0xff
    }

    /// Configure sound 4 sound length
    pub fn set_nr41(&mut self, val: u8)
        requires
            old(self).wf(),
        ensures
            final(self).wf(),
            final(self)@ == (SpuView { regs: spec_set_nr41(old(self)@.regs, val), ..old(self)@ }),
    {
        if !self.regs.enabled {
            return ;
        }
        self.regs.sound4.set_length(val % 64);
    }

    /// Retrieve envelope config for sound 4
    pub fn nr42(&self) -> (r: u8)
        requires
            self.wf(),
        ensures
            r == spec_nr42(self@.regs),
    {
        self.regs.sound4.envelope().into_reg()
    }

    /// Configure envelope: initial volume, step duration and
    /// direction
    pub fn set_nr42(&mut self, val: u8)
        requires
            old(self).wf(),
        ensures
            final(self).wf(),
            final(self)@ == (SpuView { regs: spec_set_nr42(old(self)@.regs, val), ..old(self)@ }),
    {
        if !self.regs.enabled {
            return ;
        }
        let envelope = Envelope::from_reg(val);
        self.regs.sound4.set_envelope(envelope);
    }

    /// Retrieve the noise generator configuration
    pub fn nr43(&self) -> (r: u8)
        requires
            self.wf(),
        ensures
            r == spec_nr43(self@.regs),
    {
        self.regs.sound4.lfsr().into_reg()
    }

    /// Configure the noise generator
    pub fn set_nr43(&mut self, val: u8)
        requires
            old(self).wf(),
        ensures
            final(self).wf(),
            final(self)@ == (SpuView { regs: spec_set_nr43(old(self)@.regs, val), ..old(self)@ }),
    {
        if !self.regs.enabled {
            return ;
        }
        let lfsr = Lfsr::from_reg(val);
        self.regs.sound4.set_lfsr(lfsr);
    }

    /// Retrieve mode. Other NR44 fields are write only
    pub fn nr44(&self) -> (r: u8)
        ensures
            r == spec_nr44(self@.regs),
    {
        self.regs.sound4.mode().value() * 64 + 0xbf
    }

    /// Set Mode and Initialize bit
    pub fn set_nr44(&mut self, val: u8)
        requires
            old(self).wf(),
        ensures
            final(self).wf(),
            final(self)@ == (SpuView { regs: spec_set_nr44(old(self)@.regs, val), ..old(self)@ }),
    {
        if !self.regs.enabled {
            return ;
        }
        self.regs.sound4.set_mode(
            if val & 0x40 != 0 {
                Mode::Counter
            } else {
                Mode::Continuous
            },
        );
        // Initialize bit
        if val & 0x80 != 0 {
            self.regs.sound4.start();
        }
    }

    /// Retrieve sound output volume register
    pub fn nr50(&self) -> (r: u8)
        requires
            self.wf(),
        ensures
            r == spec_nr50(self@.regs),
    {
        let v1 = self.regs.so1.volume().into_field();
        let v2 = self.regs.so2.volume().into_field();
        v2 * 16 + v1
    }

    /// Set sound output volume
    pub fn set_nr50(&mut self, val: u8)
        requires
            old(self).wf(),
        ensures
            final(self).wf(),
            final(self)@ == (SpuView { regs: spec_set_nr50(old(self)@.regs, val), ..old(self)@ }),
    {
        if !self.regs.enabled {
            return ;
        }
        self.regs.so1.set_volume(OutputVolume::from_field(val % 16));
        self.regs.so2.set_volume(OutputVolume::from_field(val / 16));
    }

    /// Retrieve sound output mixer register
    pub fn nr51(&self) -> (r: u8)
        ensures
            r == spec_nr51(self@.regs),
    {
        let v1 = self.regs.so1.mixer().into_field();
        let v2 = self.regs.so2.mixer().into_field();
        v2 * 16 + v1
    }

    /// Set sound output mixers
    pub fn set_nr51(&mut self, val: u8)
        requires
            old(self).wf(),
        ensures
            final(self).wf(),
            final(self)@ == (SpuView { regs: spec_set_nr51(old(self)@.regs, val), ..old(self)@ }),
    {
        if !self.regs.enabled {
            return ;
        }
        self.regs.so1.set_mixer(Mixer::from_field(val % 16));
        self.regs.so2.set_mixer(Mixer::from_field(val / 16));
    }

    /// Get global sound enable and sound status
    pub fn nr52(&self) -> (r: u8)
        ensures
            r == spec_nr52(self@.regs),
    {
        let enabled: u8 = if self.regs.enabled {
            1
        } else {
            0
        };
        let r1: u8 = if self.regs.sound1.running() {
            1
        } else {
            0
        };
        let r2: u8 = if self.regs.sound2.running() {
            1
        } else {
            0
        };
        let r3: u8 = if self.regs.sound3.running() {
            1
        } else {
            0
        };
        let r4: u8 = if self.regs.sound4.running() {
            1
        } else {
            0
        };
        enabled * 0x80 + 0x70 + r4 * 8 + r3 * 4 + r2 * 2 + r1
    }

    /// Set SPU enable
    pub fn set_nr52(&mut self, val: u8)
        requires
            old(self).wf(),
        ensures
            final(self).wf(),
            final(self)@ == (SpuView { regs: spec_set_nr52(old(self)@.regs, val), ..old(self)@ }),
    {
        self.regs.enabled = val & 0x80 != 0;
        if !self.regs.enabled {
            self.reset()
        }
    }
}

impl Spu {
    /// Write `val` to the sound register at offset `o` of the IO space
    pub fn write_register(&mut self, o: u8, val: u8)
        requires
            old(self).wf(),
            spec_is_sound_reg(o),
        ensures
            final(self).wf(),
            final(self)@ == (SpuView { regs: spec_spu_write(old(self)@.regs, o, val), ..old(self)@ }),
    {
        if o <= 0x14 {
            self.write_sound1(o, val);
        } else if o <= 0x19 {
            self.write_sound2(o, val);
        } else if o <= 0x1e {
            self.write_sound3(o, val);
        } else if o <= 0x23 {
            self.write_sound4(o, val);
        } else if o <= 0x26 {
            self.write_control(o, val);
        } else {
            self.set_nr3_ram(o - 0x30, val);
        }
    }

    /// Write a sound 1 register
    fn write_sound1(&mut self, o: u8, val: u8)
        requires
            old(self).wf(),
            0x10 <= o <= 0x14,
        ensures
            final(self).wf(),
            final(self)@ == (SpuView { regs: spec_spu_write(old(self)@.regs, o, val), ..old(self)@ }),
    {
        if o == 0x10 {
            self.set_nr10(val);
        } else if o == 0x11 {
            self.set_nr11(val);
        } else if o == 0x12 {
            self.set_nr12(val);
        } else if o == 0x13 {
            self.set_nr13(val);
        } else {
            self.set_nr14(val);
        }
    }

    /// Write a sound 2 register
    fn write_sound2(&mut self, o: u8, val: u8)
        requires
            old(self).wf(),
            0x16 <= o <= 0x19,
        ensures
            final(self).wf(),
            final(self)@ == (SpuView { regs: spec_spu_write(old(self)@.regs, o, val), ..old(self)@ }),
    {
        if o == 0x16 {
            self.set_nr21(val);
        } else if o == 0x17 {
            self.set_nr22(val);
        } else if o == 0x18 {
            self.set_nr23(val);
        } else {
            self.set_nr24(val);
        }
    }

    /// Write a sound 3 register
    fn write_sound3(&mut self, o: u8, val: u8)
        requires
            old(self).wf(),
            0x1a <= o <= 0x1e,
        ensures
            final(self).wf(),
            final(self)@ == (SpuView { regs: spec_spu_write(old(self)@.regs, o, val), ..old(self)@ }),
    {
        if o == 0x1a {
            self.set_nr30(val);
        } else if o == 0x1b {
            self.set_nr31(val);
        } else if o == 0x1c {
            self.set_nr32(val);
        } else if o == 0x1d {
            self.set_nr33(val);
        } else {
            self.set_nr34(val);
        }
    }

    /// Write a sound 4 register
    fn write_sound4(&mut self, o: u8, val: u8)
        requires
            old(self).wf(),
            0x20 <= o <= 0x23,
        ensures
            final(self).wf(),
            final(self)@ == (SpuView { regs: spec_spu_write(old(self)@.regs, o, val), ..old(self)@ }),
    {
        if o == 0x20 {
            self.set_nr41(val);
        } else if o == 0x21 {
            self.set_nr42(val);
        } else if o == 0x22 {
            self.set_nr43(val);
        } else {
            self.set_nr44(val);
        }
    }

    /// Write a sound control register
    fn write_control(&mut self, o: u8, val: u8)
        requires
            old(self).wf(),
            0x24 <= o <= 0x26,
        ensures
            final(self).wf(),
            final(self)@ == (SpuView { regs: spec_spu_write(old(self)@.regs, o, val), ..old(self)@ }),
    {
        if o == 0x24 {
            self.set_nr50(val);
        } else if o == 0x25 {
            self.set_nr51(val);
        } else {
            self.set_nr52(val);
        }
    }
}

} // verus!
