//! Game Boy sound 4 generates noise from a Linear Feedback Shift
//! Register.

use vstd::prelude::*;
use crate::spu::{Sample, Mode};
use crate::spu::envelope::{Envelope, spec_envelope, spec_envelope_step};
use crate::spu::rectangle_wave::spec_remaining;

verus! {

/// Width of the shift register
#[derive(Clone, Copy, PartialEq, Eq, Structural, Debug)]
pub enum LfsrWidth {
    Lfsr15bit,
    Lfsr7bit,
}

/// Linear Feedback Shift Register with its clock
#[derive(Clone, Copy, PartialEq, Eq, Structural, Debug)]
pub struct Lfsr {
    pub register: u16,
    pub width: LfsrWidth,
    /// Shift clock frequency field (NR43 bits [7:4])
    pub shift_clock: u8,
    /// Dividing ratio field (NR43 bits [2:0])
    pub ratio: u8,
    pub step_duration: u32,
    pub counter: u32,
}

/// 2 to the power `n`
pub open spec fn pow2(n: int) -> int
    decreases n,
{
    if n <= 0 {
        1
    } else {
        2 * pow2(n - 1)
    }
}

/// Number of system clock ticks between two shifts of the register:
/// there are two divisors in series to generate the LFSR clock.
pub open spec fn spec_lfsr_duration(val: u8) -> u32 {
    let base = if val % 8 == 0 {
        4int
    } else {
        8 * (val % 8)
    };
    (base * pow2(val / 16 + 1)) as u32
}

/// LFSR described by NR43 value `val`
pub open spec fn spec_lfsr(val: u8) -> Lfsr {
    let width = if val & 8 != 0 {
        LfsrWidth::Lfsr7bit
    } else {
        LfsrWidth::Lfsr15bit
    };
    Lfsr {
        register: if width == LfsrWidth::Lfsr7bit {
            0x7f
        } else {
            0x7fff
        },
        width: width,
        shift_clock: val / 16,
        ratio: val % 8,
        step_duration: spec_lfsr_duration(val),
        counter: 0,
    }
}

/// NR43 value describing `l`
pub open spec fn spec_lfsr_reg(l: Lfsr) -> u8 {
    (l.shift_clock * 16 + (if l.width == LfsrWidth::Lfsr7bit { 8int } else { 0 }) + l.ratio) as u8
}

/// Register after one shift: the feedback bit is the XOR of the two
/// low bits and enters at the top of the register
pub open spec fn spec_lfsr_shift(l: Lfsr) -> u16 {
    let shifted = l.register >> 1;
    let carry = (l.register ^ shifted) & 1;
    match l.width {
        LfsrWidth::Lfsr7bit => shifted | (carry << 6),
        LfsrWidth::Lfsr15bit => shifted | (carry << 14),
    }
}

/// LFSR after one tick of the system clock
pub open spec fn spec_lfsr_step(l: Lfsr) -> Lfsr {
    let counter = ((l.counter + 1) % (l.step_duration as int)) as u32;
    if counter == 0 {
        Lfsr { counter: counter, register: spec_lfsr_shift(l), ..l }
    } else {
        Lfsr { counter: counter, ..l }
    }
}

proof fn lemma_pow2_values(n: int)
    requires
        0 <= n <= 16,
    ensures
        1 <= pow2(n) <= 0x10000,
{
    lemma_pow2_mono(n);
    lemma_pow2_16();
}

proof fn lemma_pow2_mono(n: int)
    requires
        0 <= n <= 16,
    ensures
        1 <= pow2(n) <= pow2(16),
    decreases 16 - n,
{
    if n < 16 {
        lemma_pow2_mono(n + 1);
    }
    lemma_pow2_pos(n);
}

proof fn lemma_pow2_pos(n: int)
    ensures
        1 <= pow2(n),
    decreases n,
{
    if n > 0 {
        lemma_pow2_pos(n - 1);
    }
}

proof fn lemma_pow2_16()
    ensures
        pow2(16) == 0x10000,
{
    assert(pow2(0) == 1);
    assert(pow2(1) == 2);
    assert(pow2(2) == 4);
    assert(pow2(3) == 8);
    assert(pow2(4) == 16);
    assert(pow2(5) == 32);
    assert(pow2(6) == 64);
    assert(pow2(7) == 128);
    assert(pow2(8) == 256);
    assert(pow2(9) == 512);
    assert(pow2(10) == 1024);
    assert(pow2(11) == 2048);
    assert(pow2(12) == 4096);
    assert(pow2(13) == 8192);
    assert(pow2(14) == 16384);
    assert(pow2(15) == 32768);
    assert(pow2(16) == 65536);
}

impl Lfsr {
    /// A running clock: non null step duration and a counter below it
    pub open spec fn wf(self) -> bool {
        &&& 0 < self.step_duration <= 0x400000
        &&& self.counter < 0x400000
        &&& self.shift_clock < 16
        &&& self.ratio < 8
    }

    pub fn from_reg(val: u8) -> (l: Lfsr)
        ensures
            l == spec_lfsr(val),
            l.wf(),
    {
        let (reg, width) = if (val & 8) != 0 {
            (0x7fu16, LfsrWidth::Lfsr7bit)
        } else {
            (0x7fffu16, LfsrWidth::Lfsr15bit)
        };
        // There are two divisors in series to generate the LFSR
        // clock.
        let mut l: u32 = if val % 8 == 0 {
            // 0 is 8 * 0.5 so we need to special case it since
            // we're using integer arithmetics.
            8 / 2
        } else {
            8 * (val % 8) as u32
        };
        let shift = val / 16 + 1;
        let mut factor: u32 = 1;
        let mut i: u8 = 0;
        while i < shift
            invariant
                i <= shift,
                shift <= 16,
                factor == pow2(i as int),
                1 <= factor <= 0x10000,
            decreases shift - i,
        {
            proof {
                lemma_pow2_values(i as int + 1);
            }
            factor = factor * 2;
            i = i + 1;
        }
        proof {
            lemma_pow2_values(shift as int);
        }
        assert(4 <= l * factor <= 0x400000) by (nonlinear_arith)
            requires
                4 <= l <= 56,
                1 <= factor <= 0x10000,
        ;
        l = l * factor;
        Lfsr {
            register: reg,
            width: width,
            shift_clock: val / 16,
            ratio: val % 8,
            step_duration: l,
            counter: 0,
        }
    }

    /// Retrieve the NR43 register value
    pub fn into_reg(&self) -> (r: u8)
        requires
            self.wf(),
        ensures
            r == spec_lfsr_reg(*self),
    {
        let w: u8 = match self.width {
            LfsrWidth::Lfsr7bit => 8,
            LfsrWidth::Lfsr15bit => 0,
        };
        self.shift_clock * 16 + w + self.ratio
    }

    pub fn step(&mut self)
        requires
            old(self).wf(),
        ensures
            final(self).wf(),
            *final(self) == spec_lfsr_step(*old(self)),
    {
        self.counter = (self.counter + 1) % self.step_duration;
        if self.counter == 0 {
            self.shift();
        }
    }

    pub fn high(self) -> (r: bool)
        ensures
            r == (self.register & 1 != 0),
    {
        self.register & 1 != 0
    }

    pub fn shift(&mut self)
        ensures
            *final(self) == (Lfsr { register: spec_lfsr_shift(*old(self)), ..*old(self) }),
    {
        let shifted = self.register >> 1;
        let carry = (self.register ^ shifted) & 1;
        self.register = match self.width {
            LfsrWidth::Lfsr7bit => shifted | (carry << 6),
            LfsrWidth::Lfsr15bit => shifted | (carry << 14),
        };
    }
}

/// Converting a NR43 value into a LFSR and back gives the same
/// value.
pub proof fn lemma_lfsr_roundtrip(val: u8)
    ensures
        spec_lfsr_reg(spec_lfsr(val)) == val,
{
    assert((val / 16) * 16 + (if val & 8 != 0 { 8int } else { 0 }) + val % 8 == val) by (bit_vector);
}

/// Noise generator state
#[derive(Clone, Copy, PartialEq, Eq, Structural, Debug)]
pub struct LfsrWave {
    /// True if the wave is generating samples
    pub running: bool,
    /// Linear Feedback Shift Register
    pub lfsr: Lfsr,
    /// Enveloppe that will be used at the next start()
    pub start_envelope: Envelope,
    /// Active envelope
    pub envelope: Envelope,
    /// Play mode (continuous or counter)
    pub mode: Mode,
    /// Counter for counter mode
    pub remaining: u32,
}

/// A stopped noise generator with all registers cleared
pub open spec fn spec_lfsr_wave_new() -> LfsrWave {
    LfsrWave {
        lfsr: spec_lfsr(0),
        start_envelope: spec_envelope(0),
        envelope: spec_envelope(0),
        remaining: 0,
        mode: Mode::Continuous,
        running: false,
    }
}

/// Noise generator after one tick of the system clock
pub open spec fn spec_lfsr_wave_step(w: LfsrWave) -> LfsrWave {
    if !w.running {
        w
    } else if w.mode == Mode::Counter && w.remaining == 0 {
        LfsrWave { running: false, ..w }
    } else {
        LfsrWave {
            remaining: if w.mode == Mode::Counter {
                (w.remaining - 1) as u32
            } else {
                w.remaining
            },
            envelope: spec_envelope_step(w.envelope),
            lfsr: spec_lfsr_step(w.lfsr),
            ..w
        }
    }
}

/// Current output sample of the noise generator
pub open spec fn spec_lfsr_wave_sample(w: LfsrWave) -> Sample {
    if !w.running {
        0
    } else if w.lfsr.register & 1 != 0 {
        w.envelope.volume.0
    } else {
        0
    }
}

impl LfsrWave {
    /// Consistent state: steppable envelopes and register clock
    pub open spec fn wf(self) -> bool {
        &&& self.lfsr.wf()
        &&& self.start_envelope.wf()
        &&& self.envelope.wf()
    }

    pub fn new() -> (w: LfsrWave)
        ensures
            w == spec_lfsr_wave_new(),
            w.wf(),
    {
        LfsrWave {
            lfsr: Lfsr::from_reg(0),
            start_envelope: Envelope::from_reg(0),
            envelope: Envelope::from_reg(0),
            remaining: 0,
            mode: Mode::Continuous,
            running: false,
        }
    }

    pub fn step(&mut self)
        requires
            old(self).wf(),
        ensures
            final(self).wf(),
            *final(self) == spec_lfsr_wave_step(*old(self)),
    {
        if !self.running {
            return ;
        }
        if self.mode == Mode::Counter {
            if self.remaining == 0 {
                self.running = false;
                return ;
            }
            self.remaining = self.remaining - 1;
        }
        self.envelope.step();
        self.lfsr.step();
    }

    pub fn sample(&self) -> (r: Sample)
        ensures
            r == spec_lfsr_wave_sample(*self),
    {
        if !self.running {
            return 0;
        }
        if self.lfsr.high() {
            self.envelope.into_sample()
        } else {
            0
        }
    }

    /// Envelope that will be used at the next start
    pub fn envelope(&self) -> (r: Envelope)
        ensures
            r == self.start_envelope,
    {
        self.start_envelope
    }

    pub fn set_envelope(&mut self, envelope: Envelope)
        ensures
            *final(self) == (LfsrWave { start_envelope: envelope, ..*old(self) }),
    {
        self.start_envelope = envelope;
    }

    pub fn set_length(&mut self, len: u8)
        requires
            len < 64,
        ensures
            *final(self) == (LfsrWave { remaining: spec_remaining(len), ..*old(self) }),
    {
        let len = len as u32;
        self.remaining = (64 - len) * 0x4000;
    }

    pub fn mode(&self) -> (r: Mode)
        ensures
            r == self.mode,
    {
        self.mode
    }

    pub fn set_mode(&mut self, mode: Mode)
        ensures
            *final(self) == (LfsrWave { mode: mode, ..*old(self) }),
    {
        self.mode = mode;
    }

    pub fn lfsr(&self) -> (r: Lfsr)
        ensures
            r == self.lfsr,
    {
        self.lfsr
    }

    pub fn set_lfsr(&mut self, lfsr: Lfsr)
        ensures
            *final(self) == (LfsrWave { lfsr: lfsr, ..*old(self) }),
    {
        self.lfsr = lfsr;
    }

    pub fn running(&self) -> (r: bool)
        ensures
            r == self.running,
    {
        self.running
    }

    pub fn start(&mut self)
        ensures
            *final(self) == (LfsrWave {
                envelope: old(self).start_envelope,
                running: true,
                ..*old(self)
            }),
    {
        self.envelope = self.start_envelope;
        self.running = true;
    }
}

} // verus!
