//! Game Boy sounds 1 and 2 generate a rectangular waveform
//! with an envelope function. Channel 1 can also sweep through a
//! frequency range.

use vstd::prelude::*;
use crate::spu::{Sample, Mode};
use crate::spu::envelope::{Envelope, spec_envelope, spec_envelope_step, spec_dac_enabled};

verus! {

/// Rectangular wave duty cycle.
#[derive(Clone, Copy, PartialEq, Eq, Structural, Debug)]
pub enum DutyCycle {
    /// Duty cycle of 12.5% (1/8)
    Duty13,
    /// Duty cycle of 25%   (2/8)
    Duty25,
    /// Duty cycle of 50%   (4/8)
    Duty50,
    /// Duty cycle of 75%   (6/8)
    Duty75,
}

/// Duty cycle described by register field `field` (NR11 and NR21,
/// bits [7:6])
pub open spec fn spec_duty(field: u8) -> DutyCycle {
    if field == 0 {
        DutyCycle::Duty13
    } else if field == 1 {
        DutyCycle::Duty25
    } else if field == 2 {
        DutyCycle::Duty50
    } else {
        DutyCycle::Duty75
    }
}

/// Register field value of duty cycle `d`
pub open spec fn spec_duty_field(d: DutyCycle) -> u8 {
    match d {
        DutyCycle::Duty13 => 0,
        DutyCycle::Duty25 => 1,
        DutyCycle::Duty50 => 2,
        DutyCycle::Duty75 => 3,
    }
}

/// Number of high samples in a period of 8 samples
pub open spec fn spec_active_per_8(d: DutyCycle) -> u8 {
    match d {
        DutyCycle::Duty13 => 1,
        DutyCycle::Duty25 => 2,
        DutyCycle::Duty50 => 4,
        DutyCycle::Duty75 => 6,
    }
}

impl DutyCycle {
    /// Construct a DutyCycle from a register field (NR11 and
    /// NR21, bits [7:6])
    pub fn from_field(field: u8) -> (d: DutyCycle)
        requires
            field < 4,
        ensures
            d == spec_duty(field),
            spec_duty_field(d) == field,
    {
        match field {
            0 => DutyCycle::Duty13,
            1 => DutyCycle::Duty25,
            2 => DutyCycle::Duty50,
            _ => DutyCycle::Duty75,
        }
    }

    /// Convert back into NR11/21 field value
    pub fn into_field(self) -> (r: u8)
        ensures
            r == spec_duty_field(self),
            spec_duty(r) == self,
    {
        match self {
            DutyCycle::Duty13 => 0,
            DutyCycle::Duty25 => 1,
            DutyCycle::Duty50 => 2,
            DutyCycle::Duty75 => 3,
        }
    }

    /// Return the number of active samples for a frequency whose
    /// period is 8 samples
    pub fn active_per_8(self) -> (r: u8)
        ensures
            r == spec_active_per_8(self),
    {
        match self {
            DutyCycle::Duty13 => 1,
            DutyCycle::Duty25 => 2,
            DutyCycle::Duty50 => 4,
            DutyCycle::Duty75 => 6,
        }
    }
}

/// Direction of the frequency sweep
#[derive(Clone, Copy, PartialEq, Eq, Structural, Debug)]
pub enum SweepDirection {
    /// Frequency increases at each step
    Up,
    /// Frequency decreases at each step
    Down,
}

/// Frequency sweep function of sound 1
#[derive(Clone, Copy, PartialEq, Eq, Structural, Debug)]
pub struct Sweep {
    pub direction: SweepDirection,
    pub shift: u8,
    pub step_duration: u32,
    pub counter: u32,
}

/// Sweep described by NR10 value `val`: step duration in bits [6:4],
/// direction in bit 3 (1 is down) and shift in bits [2:0]
pub open spec fn spec_sweep(val: u8) -> Sweep {
    Sweep {
        direction: if val & 8 != 0 {
            SweepDirection::Down
        } else {
            SweepDirection::Up
        },
        shift: val % 8,
        step_duration: (((val / 16) % 8) * 0x8000) as u32,
        counter: 0,
    }
}

/// NR10 value describing sweep `s`. The MSB is undefined and always 1.
pub open spec fn spec_sweep_reg(s: Sweep) -> u8 {
    (0x80 + (s.step_duration / 0x8000) * 16 + (if s.direction == SweepDirection::Down {
        8int
    } else {
        0
    }) + s.shift) as u8
}

/// Counter of the sweep after one tick
pub open spec fn spec_sweep_counter(s: Sweep) -> u32 {
    ((s.counter + 1) % (s.step_duration as int)) as u32
}

/// Divider after one tick of the sweep function, or `None` if the
/// sound must be stopped (the frequency overflowed)
pub open spec fn spec_sweep_div(s: Sweep, div: u16) -> Option<u16> {
    if s.step_duration == 0 || spec_sweep_counter(s) != 0 {
        Some(div)
    } else {
        let offset = div as int / pow2_u16(s.shift);
        match s.direction {
            SweepDirection::Up => if div + offset > 0x7ff {
                None
            } else {
                Some((div + offset) as u16)
            },
            SweepDirection::Down => if s.shift == 0 || offset > div {
                Some(div)
            } else {
                Some((div - offset) as u16)
            },
        }
    }
}

/// Sweep state after one tick
pub open spec fn spec_sweep_after(s: Sweep) -> Sweep {
    if s.step_duration == 0 {
        s
    } else {
        Sweep { counter: spec_sweep_counter(s), ..s }
    }
}

/// 2 to the power `n`
pub open spec fn pow2_u16(n: u8) -> int
    decreases n,
{
    if n == 0 {
        1
    } else {
        2 * pow2_u16((n - 1) as u8)
    }
}

impl Sweep {
    /// Counter small enough to step without overflowing
    pub open spec fn wf(self) -> bool {
        &&& self.counter < 0x40000
        &&& self.step_duration <= 0x38000
        &&& self.shift < 8
    }

    /// Build Sweep from NR10 register value
    pub fn from_reg(val: u8) -> (s: Sweep)
        ensures
            s == spec_sweep(val),
            s.wf(),
    {
        let dir = if val & 8 != 0 {
            SweepDirection::Down
        } else {
            SweepDirection::Up
        };
        let shift = val % 8;
        let l = ((val / 16) % 8) as u32;
        Sweep { direction: dir, shift: shift, step_duration: l * 0x8000, counter: 0 }
    }

    /// Retreive value of NR10 register value
    pub fn into_reg(&self) -> (r: u8)
        requires
            self.wf(),
        ensures
            r == spec_sweep_reg(*self),
    {
        let l = (self.step_duration / 0x8000) as u8;
        let dir: u8 = if self.direction == SweepDirection::Down {
            8
        } else {
            0
        };
        // MSB is undefined and always 1
        0x80 + l * 16 + dir + self.shift
    }

    /// Step through the Sweep state machine, returning the updated
    /// divider or None if the sound must be stopped
    pub fn step(&mut self, div: u16) -> (r: Option<u16>)
        requires
            old(self).wf(),
            div <= 0x7ff,
        ensures
            final(self).wf(),
            *final(self) == spec_sweep_after(*old(self)),
            r == spec_sweep_div(*old(self), div),
            r matches Some(d) ==> d <= 0x7ff,
    {
        if self.step_duration == 0 {
            // Sweep OFF, do nothing
            return Some(div);
        }
        self.counter = (self.counter + 1) % self.step_duration;
        if self.counter != 0 {
            // Do nothing and wait for the next step
            return Some(div);
        }
        // Update the frequency
        let offset = div >> self.shift;
        proof {
            lemma_shr_is_div(div, self.shift);
        }
        match self.direction {
            SweepDirection::Up => {
                let div = div + offset;
                if div > 0x7ff {
                    // We stop on overflow
                    None
                } else {
                    Some(div)
                }
            },
            SweepDirection::Down => {
                if self.shift == 0 || offset > div {
                    // If the substraction would underflow we do
                    // nothing
                    Some(div)
                } else {
                    Some(div - offset)
                }
            },
        }
    }
}

/// Shifting right is dividing by a power of two.
pub proof fn lemma_shr_is_div(d: u16, s: u8)
    requires
        s < 8,
    ensures
        d >> s == d as int / pow2_u16(s),
        pow2_u16(s) >= 1,
{
    assert(pow2_u16(0) == 1);
    assert(pow2_u16(1) == 2);
    assert(pow2_u16(2) == 4);
    assert(pow2_u16(3) == 8);
    assert(pow2_u16(4) == 16);
    assert(pow2_u16(5) == 32);
    assert(pow2_u16(6) == 64);
    assert(pow2_u16(7) == 128);
    assert(s < 8 ==> d >> s == d / (if s == 0 { 1u16 } else if s == 1 { 2 } else if s == 2 {
        4
    } else if s == 3 { 8 } else if s == 4 { 16 } else if s == 5 { 32 } else if s == 6 {
        64
    } else { 128 })) by (bit_vector);
}

/// Converting a NR10 value into a sweep and back gives the same
/// value with the MSB set.
pub proof fn lemma_sweep_roundtrip(val: u8)
    ensures
        spec_sweep_reg(spec_sweep(val)) == val | 0x80,
{
    assert(0x80 + ((val / 16) % 8) * 16 + (if val & 8 != 0 { 8int } else { 0 }) + val % 8 == val
        | 0x80) by (bit_vector);
}

/// Sound length counter reload value for `len`
pub open spec fn spec_remaining(len: u8) -> u32 {
    ((64 - len) * 0x4000) as u32
}

/// Rectangular wave generator state
#[derive(Clone, Copy, PartialEq, Eq, Structural, Debug)]
pub struct RectangleWave {
    /// True if the sound is generating samples
    pub running: bool,
    /// Signal duty cycle
    pub duty: DutyCycle,
    /// Period counter, the period length is configurable and is used
    /// to select the desired output frequency. This counter loops 8
    /// times per cycle to let us generate the proper duty cycle.
    pub counter: u16,
    /// Divider value configured in the registers. The actual divider
    /// value used for the counter is 4 x (0x800 - <this value>)
    pub divider: u16,
    /// Phase counter, increments 8 times per sound period
    pub phase: u8,
    /// Enveloppe that will be used at the next start()
    pub start_envelope: Envelope,
    /// Active envelope
    pub envelope: Envelope,
    /// Play mode (continuous or counter)
    pub mode: Mode,
    /// Counter for counter mode
    pub remaining: u32,
    /// Sweep function (only available on sound 1)
    pub sweep: Sweep,
}

/// A stopped rectangular wave with all registers cleared
pub open spec fn spec_rectangle_new() -> RectangleWave {
    RectangleWave {
        running: false,
        duty: spec_duty(0),
        counter: 0,
        divider: 0,
        phase: 0,
        start_envelope: spec_envelope(0),
        envelope: spec_envelope(0),
        mode: Mode::Continuous,
        remaining: 0x100000,
        sweep: spec_sweep(0),
    }
}

/// Rectangular wave after one tick of the system clock
pub open spec fn spec_rectangle_step(w: RectangleWave) -> RectangleWave {
    if w.mode == Mode::Counter && w.remaining == 0 {
        // Counter ran out: the sound stops and the counter reloads
        RectangleWave { running: false, remaining: 0x100000, ..w }
    } else {
        let remaining = if w.mode == Mode::Counter {
            (w.remaining - 1) as u32
        } else {
            w.remaining
        };
        if !w.running {
            RectangleWave { remaining: remaining, ..w }
        } else {
            let envelope = spec_envelope_step(w.envelope);
            let sweep = spec_sweep_after(w.sweep);
            match spec_sweep_div(w.sweep, w.divider) {
                None => RectangleWave {
                    remaining: remaining,
                    envelope: envelope,
                    sweep: sweep,
                    running: false,
                    ..w
                },
                Some(divider) => {
                    let (counter, phase) = if w.counter == 0 {
                        ((4 * (0x800 - divider)) as u16, ((w.phase + 1) % 8) as u8)
                    } else {
                        (w.counter, w.phase)
                    };
                    RectangleWave {
                        remaining: remaining,
                        envelope: envelope,
                        sweep: sweep,
                        divider: divider,
                        counter: (counter - 1) as u16,
                        phase: phase,
                        ..w
                    }
                },
            }
        }
    }
}

/// Current output sample of the rectangular wave
pub open spec fn spec_rectangle_sample(w: RectangleWave) -> Sample {
    if !w.running {
        0
    } else if w.phase < spec_active_per_8(w.duty) {
        w.envelope.volume.0
    } else {
        0
    }
}

impl RectangleWave {
    /// Consistent state: a divider and a phase in range and steppable
    /// envelope and sweep
    pub open spec fn wf(self) -> bool {
        &&& self.divider < 0x800
        &&& self.phase < 8
        &&& self.counter <= 0x2000
        &&& self.start_envelope.wf()
        &&& self.envelope.wf()
        &&& self.sweep.wf()
    }

    pub fn new() -> (w: RectangleWave)
        ensures
            w == spec_rectangle_new(),
            w.wf(),
    {
        RectangleWave {
            running: false,
            duty: DutyCycle::from_field(0),
            counter: 0,
            divider: 0,
            phase: 0,
            start_envelope: Envelope::from_reg(0),
            envelope: Envelope::from_reg(0),
            mode: Mode::Continuous,
            remaining: 0x100000,
            sweep: Sweep::from_reg(0),
        }
    }

    pub fn step(&mut self)
        requires
            old(self).wf(),
        ensures
            final(self).wf(),
            *final(self) == spec_rectangle_step(*old(self)),
    {
        // Counter runs even if the channel is disabled
        if self.mode == Mode::Counter {
            if self.remaining == 0 {
                self.running = false;
                // Reload counter default value
                self.remaining = 64 * 0x4000;
                return ;
            }
            self.remaining = self.remaining - 1;
        }
        if !self.running {
            return ;
        }
        self.envelope.step();
        match self.sweep.step(self.divider) {
            Some(div) => {
                self.divider = div;
            },
            None => {
                // Sweep function ended, sound is stopped
                self.running = false;
                return ;
            },
        }
        if self.counter == 0 {
            // Reset the counter. This weird equation is simply how
            // the hardware does it, no tricks here.
            self.counter = 4 * (0x800 - self.divider);
            // Move on to the next phase.
            self.phase = (self.phase + 1) % 8;
        }
        self.counter = self.counter - 1;
    }

    pub fn sample(&self) -> (r: Sample)
        ensures
            r == spec_rectangle_sample(*self),
    {
        if !self.running {
            return 0;
        }
        if self.phase < self.duty.active_per_8() {
            // Output is high
            self.envelope.into_sample()
        } else {
            0
        }
    }

    pub fn start(&mut self)
        ensures
            *final(self) == (RectangleWave {
                envelope: old(self).start_envelope,
                running: spec_dac_enabled(old(self).start_envelope),
                ..*old(self)
            }),
    {
        self.envelope = self.start_envelope;
        self.running = self.envelope.dac_enabled();
    }

    pub fn running(&self) -> (r: bool)
        ensures
            r == self.running,
    {
        self.running
    }

    pub fn divider(&self) -> (r: u16)
        ensures
            r == self.divider,
    {
        self.divider
    }

    pub fn set_divider(&mut self, divider: u16)
        requires
            divider < 0x800,
        ensures
            *final(self) == (RectangleWave { divider: divider, ..*old(self) }),
    {
        self.divider = divider;
    }

    pub fn duty(&self) -> (r: DutyCycle)
        ensures
            r == self.duty,
    {
        self.duty
    }

    pub fn set_duty(&mut self, duty: DutyCycle)
        ensures
            *final(self) == (RectangleWave { duty: duty, ..*old(self) }),
    {
        self.duty = duty;
    }

    pub fn envelope(&self) -> (r: Envelope)
        ensures
            r == self.start_envelope,
    {
        self.start_envelope
    }

    /// New envelope will become active at the next start. An envelope
    /// that disables the DAC stops the sound.
    pub fn set_envelope(&mut self, envelope: Envelope)
        ensures
            *final(self) == (RectangleWave {
                start_envelope: envelope,
                running: old(self).running && spec_dac_enabled(envelope),
                ..*old(self)
            }),
    {
        self.start_envelope = envelope;
        if !envelope.dac_enabled() {
            self.running = false;
        }
    }

    pub fn mode(&self) -> (r: Mode)
        ensures
            r == self.mode,
    {
        self.mode
    }

    pub fn set_mode(&mut self, mode: Mode)
        ensures
            *final(self) == (RectangleWave { mode: mode, ..*old(self) }),
    {
        self.mode = mode;
    }

    pub fn set_length(&mut self, len: u8)
        requires
            len < 64,
        ensures
            *final(self) == (RectangleWave { remaining: spec_remaining(len), ..*old(self) }),
    {
        let len = len as u32;
        self.remaining = (64 - len) * 0x4000;
    }

    pub fn sweep(&self) -> (r: Sweep)
        ensures
            r == self.sweep,
    {
        self.sweep
    }

    pub fn set_sweep(&mut self, sweep: Sweep)
        ensures
            *final(self) == (RectangleWave { sweep: sweep, ..*old(self) }),
    {
        self.sweep = sweep;
    }
}

} // verus!
