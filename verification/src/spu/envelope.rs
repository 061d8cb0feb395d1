//! Envelope function used by sounds 1, 2 and 4

use vstd::prelude::*;
use crate::spu::{Sample, SOUND_MAX};

verus! {

/// Sound envelopes can become louder or quieter
#[derive(Clone, Copy, PartialEq, Eq, Structural, Debug)]
pub enum EnvelopeDirection {
    /// Volume increases at each step
    Up,
    /// Volume decreases at each step
    Down,
}

/// The game boy sound uses 4bit DACs and can therefore only output 16
/// sound levels
#[derive(Clone, Copy, PartialEq, Eq, Structural, Debug)]
pub struct Volume(pub u8);

impl Volume {
    pub fn from_field(vol: u8) -> (r: Volume)
        requires
            vol <= SOUND_MAX,
        ensures
            r == Volume(vol),
    {
        Volume(vol)
    }

    pub fn into_field(self) -> (r: u8)
        ensures
            r == self.0,
    {
        self.0
    }

    /// Convert from 4-bit volume value to Sample range
    pub fn into_sample(self) -> (r: Sample)
        ensures
            r == self.0,
    {
        self.0
    }

    /// One step louder, saturating at the maximum volume
    pub fn up(&mut self)
        ensures
            *final(self) == Volume(if old(self).0 < SOUND_MAX { (old(self).0 + 1) as u8 } else { old(self).0 }),
    {
        let v = self.0;
        if v < SOUND_MAX {
            *self = Volume(v + 1);
        }
    }

    /// One step quieter, saturating at 0
    pub fn down(&mut self)
        ensures
            *final(self) == Volume(if old(self).0 > 0 { (old(self).0 - 1) as u8 } else { old(self).0 }),
    {
        let v = self.0;
        if v > 0 {
            *self = Volume(v - 1);
        }
    }
}

/// Envelope state
#[derive(Clone, Copy, PartialEq, Eq, Structural, Debug)]
pub struct Envelope {
    pub direction: EnvelopeDirection,
    pub volume: Volume,
    pub step_duration: u32,
    pub counter: u32,
}

/// Envelope described by register value `val`: initial volume in bits
/// [7:4], direction in bit 3 (1 is up) and step duration in bits [2:0]
pub open spec fn spec_envelope(val: u8) -> Envelope {
    Envelope {
        direction: if val & 8 != 0 {
            EnvelopeDirection::Up
        } else {
            EnvelopeDirection::Down
        },
        volume: Volume(val / 16),
        step_duration: ((val % 8) * 0x10000) as u32,
        counter: 0,
    }
}

/// Register value describing envelope `e`
pub open spec fn spec_envelope_reg(e: Envelope) -> u8 {
    (e.volume.0 * 16 + (if e.direction == EnvelopeDirection::Up { 8int } else { 0 }) + e.step_duration
        / 0x10000) as u8
}

/// Envelope after one tick of the system clock: the volume moves one
/// step in the envelope direction every `step_duration` ticks. A step
/// duration of 0 means the envelope is inactive.
pub open spec fn spec_envelope_step(e: Envelope) -> Envelope {
    if e.step_duration == 0 {
        e
    } else {
        let counter = ((e.counter + 1) % (e.step_duration as int)) as u32;
        let v = e.volume.0;
        let volume = if counter != 0 {
            v
        } else if e.direction == EnvelopeDirection::Up {
            if v < SOUND_MAX {
                (v + 1) as u8
            } else {
                v
            }
        } else {
            if v > 0 {
                (v - 1) as u8
            } else {
                v
            }
        };
        Envelope { counter: counter, volume: Volume(volume), ..e }
    }
}

/// `true` unless the envelope goes down from volume 0: the DAC is
/// then disabled
pub open spec fn spec_dac_enabled(e: Envelope) -> bool {
    e.direction != EnvelopeDirection::Down || e.volume.0 != 0
}

impl Envelope {
    /// Consistent envelope: 4 bit volume and a counter that can step
    /// without overflowing
    pub open spec fn wf(self) -> bool {
        &&& self.volume.0 <= SOUND_MAX
        &&& self.counter < 0x80000
        &&& self.step_duration <= 0x70000
    }

    pub fn from_reg(val: u8) -> (e: Envelope)
        ensures
            e == spec_envelope(val),
            e.wf(),
    {
        let vol = Volume::from_field(val / 16);
        let dir = if val & 8 != 0 {
            EnvelopeDirection::Up
        } else {
            EnvelopeDirection::Down
        };
        let l = (val % 8) as u32;
        Envelope { direction: dir, volume: vol, step_duration: l * 0x10000, counter: 0 }
    }

    pub fn into_reg(&self) -> (r: u8)
        requires
            self.wf(),
        ensures
            r == spec_envelope_reg(*self),
    {
        let vol = self.volume.into_field();
        let dir: u8 = if self.direction == EnvelopeDirection::Up {
            8
        } else {
            0
        };
        let l = (self.step_duration / 0x10000) as u8;
        vol * 16 + dir + l
    }

    pub fn step(&mut self)
        requires
            old(self).wf(),
        ensures
            final(self).wf(),
            *final(self) == spec_envelope_step(*old(self)),
    {
        if self.step_duration == 0 {
            // If the step duration is 0 the envelope is not active
            return ;
        }
        self.counter = (self.counter + 1) % self.step_duration;
        if self.counter == 0 {
            // Move on to the next step
            match self.direction {
                EnvelopeDirection::Up => self.volume.up(),
                EnvelopeDirection::Down => self.volume.down(),
            }
        }
    }

    pub fn into_sample(&self) -> (r: Sample)
        ensures
            r == self.volume.0,
    {
        self.volume.into_sample()
    }

    /// DAC is disabled when envelope direction goes down and volume is 0
    pub fn dac_enabled(&self) -> (r: bool)
        ensures
            r == spec_dac_enabled(*self),
    {
        self.direction != EnvelopeDirection::Down || self.volume.into_sample() != 0
    }
}

/// Converting a register value into an envelope and back gives the
/// same value.
pub proof fn lemma_envelope_roundtrip(val: u8)
    ensures
        spec_envelope_reg(spec_envelope(val)) == val,
{
    assert((val / 16) * 16 + (if val & 8 != 0 { 8int } else { 0 }) + val % 8 == val) by (bit_vector);
}

/// Each time the envelope counter wraps around, the volume moves one
/// step in the envelope direction: down for `Down` (staying at 0),
/// up for `Up` (staying at the maximum). Between wraps it doesn't
/// change, and an envelope with a step duration of 0 never changes.
pub proof fn lemma_envelope_direction(e: Envelope)
    requires
        e.wf(),
    ensures
        e.step_duration == 0 ==> spec_envelope_step(e) == e,
        e.step_duration != 0 && (e.counter + 1) % (e.step_duration as int) != 0
            ==> spec_envelope_step(e).volume == e.volume,
        e.step_duration != 0 && (e.counter + 1) % (e.step_duration as int) == 0 ==> ({
            let v = e.volume.0;
            let n = spec_envelope_step(e).volume.0;
            &&& e.direction == EnvelopeDirection::Down && v > 0 ==> n == v - 1
            &&& e.direction == EnvelopeDirection::Down && v == 0 ==> n == 0
            &&& e.direction == EnvelopeDirection::Up && v < 15 ==> n == v + 1
            &&& e.direction == EnvelopeDirection::Up && v == 15 ==> n == 15
        }),
        spec_envelope_step(e).direction == e.direction,
        spec_envelope_step(e).step_duration == e.step_duration,
{
}

/// Envelope after `n` ticks of the system clock
pub open spec fn spec_envelope_steps(e: Envelope, n: nat) -> Envelope
    decreases n,
{
    if n == 0 {
        e
    } else {
        spec_envelope_step(spec_envelope_steps(e, (n - 1) as nat))
    }
}

/// The first `k` ticks after the envelope was loaded: the counter
/// counts them and the volume is unchanged until the step duration
/// is reached.
proof fn lemma_envelope_counts(e: Envelope, k: nat)
    requires
        e.wf(),
        e.counter == 0,
        e.step_duration != 0,
        k < e.step_duration,
    ensures
        spec_envelope_steps(e, k) == (Envelope { counter: k as u32, ..e }),
    decreases k,
{
    if k > 0 {
        lemma_envelope_counts(e, (k - 1) as nat);
        let p = spec_envelope_steps(e, (k - 1) as nat);
        assert(p.counter == k - 1);
        vstd::arithmetic::div_mod::lemma_small_mod(k, e.step_duration as nat);
        assert((p.counter + 1) % (p.step_duration as int) == k);
        assert(spec_envelope_steps(e, k) == spec_envelope_step(p));
    }
}

/// Once an envelope is loaded from its register, its volume moves one
/// step in its direction after exactly its step duration (bits 2 to 0
/// of the register, in units of 0x10000 ticks): a `Down` envelope
/// gets quieter, an `Up` one louder, within the range 0 to 15.
pub proof fn lemma_envelope_first_step(val: u8)
    requires
        val % 8 != 0,
    ensures
        ({
            let e = spec_envelope(val);
            let n = spec_envelope_steps(e, ((val % 8) * 0x10000) as nat).volume.0;
            let v = val / 16;
            &&& (val & 8 == 0 && v > 0) ==> n == v - 1
            &&& (val & 8 == 0 && v == 0) ==> n == 0
            &&& (val & 8 != 0 && v < 15) ==> n == v + 1
            &&& (val & 8 != 0 && v == 15) ==> n == 15
        }),
{
    let e = spec_envelope(val);
    let d = ((val % 8) * 0x10000) as nat;
    lemma_envelope_counts(e, (d - 1) as nat);
    let p = spec_envelope_steps(e, (d - 1) as nat);
    assert(spec_envelope_steps(e, d) == spec_envelope_step(p));
    assert(p.counter + 1 == d);
    vstd::arithmetic::div_mod::lemma_mod_self_0(d as int);
    assert((p.counter + 1) % (p.step_duration as int) == 0);
}

} // verus!
