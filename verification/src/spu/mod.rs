//! Game Boy sound emulation

use vstd::prelude::*;
use crate::spu::rectangle_wave::{RectangleWave, spec_rectangle_new, spec_rectangle_step, spec_rectangle_sample};
use crate::spu::lfsr_wave::{LfsrWave, spec_lfsr_wave_new, spec_lfsr_wave_step, spec_lfsr_wave_sample};
use crate::spu::ram_wave::{RamWave, spec_ram_wave_with, spec_ram_wave_step, spec_ram_wave_sample};

pub mod envelope;
pub mod rectangle_wave;
pub mod lfsr_wave;
pub mod ram_wave;
pub mod registers;
pub mod tone;

verus! {

/// Each sound uses a 4bit DAC which means it they can only output
/// 16 sound levels each. There are 4 channels in total which means
/// that the sum is in the range [0, 60], so a u8 is plenty enough.
pub type Sample = u8;

/// Maximum possible volume for a single sound
pub const SOUND_MAX: Sample = 15;

/// Sound can be continuous or stop based on a counter
#[derive(Clone, Copy, PartialEq, Eq, Structural, Debug)]
pub enum Mode {
    Continuous,
    Counter,
}

/// Register bit value of mode `m`
pub open spec fn mode_bit(m: Mode) -> u8 {
    match m {
        Mode::Continuous => 0,
        Mode::Counter => 1,
    }
}

impl Mode {
    /// Register bit value of the mode
    pub fn value(self) -> (r: u8)
        ensures
            r == mode_bit(self),
    {
        match self {
            Mode::Continuous => 0,
            Mode::Counter => 1,
        }
    }
}

/// Each of the 4 sounds can be enabled or disabled independantly for
/// each sound output.
#[derive(Clone, Copy, PartialEq, Eq, Structural, Debug)]
pub struct Mixer {
    pub sound1: bool,
    pub sound2: bool,
    pub sound3: bool,
    pub sound4: bool,
}

/// Mixer described by the NR51 4bit field `f`
pub open spec fn spec_mixer(f: u8) -> Mixer {
    Mixer { sound1: f & 1 != 0, sound2: f & 2 != 0, sound3: f & 4 != 0, sound4: f & 8 != 0 }
}

/// NR51 4bit field describing mixer `m`
pub open spec fn spec_mixer_field(m: Mixer) -> u8 {
    ((if m.sound1 { 1int } else { 0 }) + (if m.sound2 { 2int } else { 0 }) + (if m.sound3 {
        4int
    } else {
        0
    }) + (if m.sound4 { 8int } else { 0 })) as u8
}

/// Sum of the samples of the sounds selected by `m`
pub open spec fn spec_mix(m: Mixer, s1: Sample, s2: Sample, s3: Sample, s4: Sample) -> int {
    (if m.sound1 { s1 as int } else { 0 }) + (if m.sound2 { s2 as int } else { 0 }) + (if m.sound3 {
        s3 as int
    } else {
        0
    }) + (if m.sound4 { s4 as int } else { 0 })
}

impl Mixer {
    /// Build a mixer from the NR51 4bit field
    pub fn from_field(field: u8) -> (m: Mixer)
        ensures
            m == spec_mixer(field),
    {
        Mixer {
            sound1: field & 1 != 0,
            sound2: field & 2 != 0,
            sound3: field & 4 != 0,
            sound4: field & 8 != 0,
        }
    }

    pub fn into_field(self) -> (f: u8)
        ensures
            f == spec_mixer_field(self),
            f < 16,
    {
        let mut f: u8 = 0;
        if self.sound1 {
            f = f + 1;
        }
        if self.sound2 {
            f = f + 2;
        }
        if self.sound3 {
            f = f + 4;
        }
        if self.sound4 {
            f = f + 8;
        }
        f
    }

    pub fn mix(self, s1: Sample, s2: Sample, s3: Sample, s4: Sample) -> (r: Sample)
        requires
            s1 <= SOUND_MAX,
            s2 <= SOUND_MAX,
            s3 <= SOUND_MAX,
            s4 <= SOUND_MAX,
        ensures
            r == spec_mix(self, s1, s2, s3, s4),
            r <= 4 * SOUND_MAX,
    {
        let mut r: Sample = 0;
        if self.sound1 {
            // Sound is enabled for this output
            r = r + s1;
        }
        if self.sound2 {
            r = r + s2;
        }
        if self.sound3 {
            r = r + s3;
        }
        if self.sound4 {
            r = r + s4;
        }
        r
    }
}

/// Sound output volume configuration
#[derive(Clone, Copy, PartialEq, Eq, Structural, Debug)]
pub struct OutputVolume {
    /// Not used for now
    pub vin: bool,
    /// Sound volume divider, between 1 (full volume) and 8(min)
    pub level: u8,
}

/// Output volume described by a NR50 4bit field
pub open spec fn spec_output_volume(field: u8) -> OutputVolume {
    OutputVolume { vin: field & 8 != 0, level: (8 - field % 8) as u8 }
}

/// NR50 4bit field describing output volume `v`
pub open spec fn spec_output_volume_field(v: OutputVolume) -> u8 {
    ((if v.vin { 8int } else { 0 }) + 8 - v.level) as u8
}

impl OutputVolume {
    /// Build an OutputVolume from a N50 field
    pub fn from_field(field: u8) -> (v: OutputVolume)
        ensures
            v == spec_output_volume(field),
            1 <= v.level <= 8,
    {
        OutputVolume { vin: field & 8 != 0, level: 8 - field % 8 }
    }

    pub fn into_field(self) -> (f: u8)
        requires
            1 <= self.level <= 8,
        ensures
            f == spec_output_volume_field(self),
            f < 16,
    {
        let vin: u8 = if self.vin {
            8
        } else {
            0
        };
        vin + (8 - self.level)
    }

    pub fn process(self, s: Sample) -> (r: Sample)
        requires
            1 <= self.level <= 8,
        ensures
            r == s / self.level,
            r <= s,
    {
        s / self.level
    }
}

/// The Game Boy has two sound outputs: SO1 and SO2
#[derive(Clone, Copy, PartialEq, Eq, Structural, Debug)]
pub struct SoundOutput {
    /// Sound mixer for this output
    pub mixer: Mixer,
    pub volume: OutputVolume,
}

/// A sound output that selects no sound at full volume
pub open spec fn spec_sound_output_new() -> SoundOutput {
    SoundOutput { mixer: spec_mixer(0), volume: spec_output_volume(0) }
}

/// Output sample of `o` for the four sound samples
pub open spec fn spec_output(o: SoundOutput, s1: Sample, s2: Sample, s3: Sample, s4: Sample) -> Sample {
    (spec_mix(o.mixer, s1, s2, s3, s4) / (o.volume.level as int)) as u8
}

impl SoundOutput {
    pub open spec fn wf(self) -> bool {
        1 <= self.volume.level <= 8
    }

    pub fn new() -> (o: SoundOutput)
        ensures
            o == spec_sound_output_new(),
            o.wf(),
    {
        SoundOutput { mixer: Mixer::from_field(0), volume: OutputVolume::from_field(0) }
    }

    pub fn sample(&self, s1: Sample, s2: Sample, s3: Sample, s4: Sample) -> (r: Sample)
        requires
            self.wf(),
            s1 <= SOUND_MAX,
            s2 <= SOUND_MAX,
            s3 <= SOUND_MAX,
            s4 <= SOUND_MAX,
        ensures
            r == spec_output(*self, s1, s2, s3, s4),
            r <= 4 * SOUND_MAX,
    {
        let mixed = self.mixer.mix(s1, s2, s3, s4);
        self.volume.process(mixed)
    }

    pub fn mixer(&self) -> (m: Mixer)
        ensures
            m == self.mixer,
    {
        self.mixer
    }

    pub fn set_mixer(&mut self, mixer: Mixer)
        ensures
            *final(self) == (SoundOutput { mixer: mixer, ..*old(self) }),
    {
        self.mixer = mixer;
    }

    pub fn volume(&self) -> (v: OutputVolume)
        ensures
            v == self.volume,
    {
        self.volume
    }

    pub fn set_volume(&mut self, volume: OutputVolume)
        ensures
            *final(self) == (SoundOutput { volume: volume, ..*old(self) }),
    {
        self.volume = volume;
    }
}

/// This variable says how many SysClk cycles to wait between each
/// sound sample. In other words, SYSCLK_FREQ / SAMPLER_DIVIDER gives
/// the audio sample rate. A value of 95 gives us a sample frequency
/// slightly above 44.1kHz which is a reasonable default. The
/// resulting audio stream will have to be resampled by the audio
/// backend to the target frequency.
pub const SAMPLER_DIVIDER: u32 = 95;

/// Number of values (left and right interleaved) in a sample buffer
pub const BUFFER_SIZE: usize = 1024;

/// Sound registers and generators state
#[derive(Clone, Copy, Debug)]
pub struct SpuRegs {
    /// True if the sound circuit is enabled
    pub enabled: bool,
    /// Counter for the SAMPLER_DIVIDER
    pub divider: u32,
    /// Sound 1, rectangular wave with envelope function and
    /// frequency sweep
    pub sound1: RectangleWave,
    /// Sound 2, same as sound 1 without frequency sweep
    pub sound2: RectangleWave,
    /// Sound 3 plays samples stored in RAM
    pub sound3: RamWave,
    /// Sound 4, LFSR based noise generator with envelope function
    pub sound4: LfsrWave,
    /// Sound Output 1
    pub so1: SoundOutput,
    /// Sound Output 2
    pub so2: SoundOutput,
}

impl SpuRegs {
    /// Consistent registers
    pub open spec fn wf(self) -> bool {
        &&& self.divider <= SAMPLER_DIVIDER
        &&& self.sound1.wf()
        &&& self.sound2.wf()
        &&& self.sound3.wf()
        &&& self.sound4.wf()
        &&& self.so1.wf()
        &&& self.so2.wf()
    }
}

/// Abstract state of the sound processing unit
pub struct SpuView {
    pub regs: SpuRegs,
    /// Current sample buffer
    pub buffer: Seq<i16>,
    /// Position in the sample buffer
    pub position: int,
    /// Samples buffers that have been filled, waiting to be played
    pub audio_out: Seq<i16>,
}

/// Sound Processing Unit state.
pub struct Spu {
    regs: SpuRegs,
    /// Current sample buffer
    buffer: Vec<i16>,
    /// Position in the sample buffer
    position: usize,
    /// Samples buffers that have been filled, waiting to be played
    audio_out: Vec<i16>,
}

/// All sounds reset, sample RAM of sound 3 kept
pub open spec fn spec_spu_reset(r: SpuRegs) -> SpuRegs {
    SpuRegs {
        sound1: spec_rectangle_new(),
        sound2: spec_rectangle_new(),
        sound3: spec_ram_wave_with(r.sound3.ram),
        sound4: spec_lfsr_wave_new(),
        so1: spec_sound_output_new(),
        so2: spec_sound_output_new(),
        ..r
    }
}

/// Sample buffering: when the buffer is full it is queued for output
/// and refilled from the beginning. Samples are scaled to 16 bits.
pub open spec fn spec_output_sample(v: SpuView, l: Sample, r: Sample) -> SpuView {
    let (buffer_out, position) = if v.buffer.len() - v.position < 2 {
        (v.audio_out + v.buffer, 0)
    } else {
        (v.audio_out, v.position)
    };
    SpuView {
        buffer: v.buffer.update(position, (l * 128) as i16).update(position + 1, (r * 128) as i16),
        position: position + 2,
        audio_out: buffer_out,
        ..v
    }
}

/// Sound state after one tick of the system clock: the generators
/// step, then every SAMPLER_DIVIDER ticks a sample of each output is
/// produced.
pub open spec fn spec_spu_step(v: SpuView) -> SpuView {
    if !v.regs.enabled {
        v
    } else {
        let r = v.regs;
        let r1 = SpuRegs {
            sound1: spec_rectangle_step(r.sound1),
            sound2: spec_rectangle_step(r.sound2),
            sound3: spec_ram_wave_step(r.sound3),
            sound4: spec_lfsr_wave_step(r.sound4),
            ..r
        };
        if r1.divider == 0 {
            let s1 = spec_rectangle_sample(r1.sound1);
            let s2 = spec_rectangle_sample(r1.sound2);
            let s3 = spec_ram_wave_sample(r1.sound3);
            let s4 = spec_lfsr_wave_sample(r1.sound4);
            let v1 = spec_output_sample(
                SpuView { regs: r1, ..v },
                spec_output(r1.so1, s1, s2, s3, s4),
                spec_output(r1.so2, s1, s2, s3, s4),
            );
            SpuView { regs: SpuRegs { divider: (SAMPLER_DIVIDER - 1) as u32, ..v1.regs }, ..v1 }
        } else {
            SpuView { regs: SpuRegs { divider: (r1.divider - 1) as u32, ..r1 }, ..v }
        }
    }
}

impl Spu {
    /// Abstract state
    pub closed spec fn view(&self) -> SpuView {
        SpuView {
            regs: self.regs,
            buffer: self.buffer@,
            position: self.position as int,
            audio_out: self.audio_out@,
        }
    }

    /// Consistent state
    pub closed spec fn wf(&self) -> bool {
        &&& self.regs.wf()
        &&& self.buffer@.len() == BUFFER_SIZE
        &&& self.position <= BUFFER_SIZE
        &&& self.position % 2 == 0
    }

    pub fn new() -> (s: Spu)
        ensures
            s.wf(),
            s@.regs.enabled == false,
            s@.regs.divider == 0,
            s@.regs.sound1 == spec_rectangle_new(),
            s@.regs.sound2 == spec_rectangle_new(),
            s@.regs.sound3 == spec_ram_wave_with(s@.regs.sound3.ram),
            forall|i: int| 0 <= i < 32 ==> #[trigger] s@.regs.sound3.ram@[i] == 0,
            s@.regs.sound4 == spec_lfsr_wave_new(),
            s@.regs.so1 == spec_sound_output_new(),
            s@.regs.so2 == spec_sound_output_new(),
            s@.buffer == Seq::new(1024, |i: int| 0i16),
            s@.position == 0,
            s@.audio_out == Seq::<i16>::empty(),
    {
        let mut buffer: Vec<i16> = Vec::new();
        while buffer.len() < BUFFER_SIZE
            invariant
                buffer.len() <= BUFFER_SIZE,
                forall|i: int| 0 <= i < buffer.len() ==> #[trigger] buffer@[i] == 0,
            decreases BUFFER_SIZE - buffer.len(),
        {
            buffer.push(0);
        }
        let s = Spu {
            regs: SpuRegs {
                enabled: false,
                divider: 0,
                sound1: RectangleWave::new(),
                sound2: RectangleWave::new(),
                sound3: RamWave::new(),
                sound4: LfsrWave::new(),
                so1: SoundOutput::new(),
                so2: SoundOutput::new(),
            },
            buffer: buffer,
            position: 0,
            audio_out: Vec::new(),
        };
        assert(s@.buffer =~= Seq::new(1024, |i: int| 0i16));
        s
    }

    pub fn step(&mut self)
        requires
            old(self).wf(),
        ensures
            final(self).wf(),
            final(self)@ == spec_spu_step(old(self)@),
    {
        if !self.regs.enabled {
            return
        }
        self.regs.sound1.step();
        self.regs.sound2.step();
        self.regs.sound3.step();
        self.regs.sound4.step();
        if self.regs.divider == 0 {
            self.regs.divider = SAMPLER_DIVIDER;
            self.sample();
        }
        self.regs.divider = self.regs.divider - 1;
    }

    /// Produce one sample for each output
    fn sample(&mut self)
        requires
            old(self).wf(),
        ensures
            final(self).wf(),
            final(self)@ == spec_output_sample(
                old(self)@,
                spec_output(
                    old(self)@.regs.so1,
                    spec_rectangle_sample(old(self)@.regs.sound1),
                    spec_rectangle_sample(old(self)@.regs.sound2),
                    spec_ram_wave_sample(old(self)@.regs.sound3),
                    spec_lfsr_wave_sample(old(self)@.regs.sound4),
                ),
                spec_output(
                    old(self)@.regs.so2,
                    spec_rectangle_sample(old(self)@.regs.sound1),
                    spec_rectangle_sample(old(self)@.regs.sound2),
                    spec_ram_wave_sample(old(self)@.regs.sound3),
                    spec_lfsr_wave_sample(old(self)@.regs.sound4),
                ),
            ),
    {
        let s1 = self.regs.sound1.sample();
        let s2 = self.regs.sound2.sample();
        let s3 = self.regs.sound3.sample();
        let s4 = self.regs.sound4.sample();
        let left = self.regs.so1.sample(s1, s2, s3, s4);
        let right = self.regs.so2.sample(s1, s2, s3, s4);
        self.output_sample(left, right);
    }

    /// Handle sample buffering: a full buffer is queued for output.
    fn output_sample(&mut self, l: Sample, r: Sample)
        requires
            old(self).wf(),
            l <= 4 * SOUND_MAX,
            r <= 4 * SOUND_MAX,
        ensures
            final(self).wf(),
            final(self)@ == spec_output_sample(old(self)@, l, r),
    {
        if self.buffer.len() - self.position < 2 {
            // Buffer filled, queue it and reset the position
            let mut out: Vec<i16> = Vec::new();
            std::mem::swap(&mut out, &mut self.audio_out);
            let ghost out0 = out@;
            let n = self.buffer.len();
            let mut i: usize = 0;
            while i < n
                invariant
                    n == self.buffer@.len(),
                    i <= n,
                    out@ == out0 + self.buffer@.subrange(0, i as int),
                decreases n - i,
            {
                let s = self.buffer[i];
                out.push(s);
                i = i + 1;
                assert(self.buffer@.subrange(0, i as int) == self.buffer@.subrange(0, i - 1).push(s));
            }
            assert(self.buffer@.subrange(0, n as int) =~= self.buffer@);
            self.audio_out = out;
            self.position = 0;
        }
        let p = self.position;
        let lv: i16 = (l as i16) * 128;
        let rv: i16 = (r as i16) * 128;
        self.buffer.set(p, lv);
        self.buffer.set(p + 1, rv);
        self.position = p + 2;
    }

    /// Take the samples that were produced since the last call (left
    /// and right interleaved)
    pub fn take_audio(&mut self) -> (out: Vec<i16>)
        requires
            old(self).wf(),
        ensures
            final(self).wf(),
            out@ == old(self)@.audio_out,
            final(self)@ == (SpuView { audio_out: Seq::empty(), ..old(self)@ }),
    {
        let mut out: Vec<i16> = Vec::new();
        std::mem::swap(&mut out, &mut self.audio_out);
        out
    }

    /// Reinitialize the entire SPU to default values. The only
    /// exception is the waveform RAM that remains untouched.
    fn reset(&mut self)
        requires
            old(self).wf(),
        ensures
            final(self).wf(),
            final(self)@ == (SpuView { regs: spec_spu_reset(old(self)@.regs), ..old(self)@ }),
    {
        self.regs.sound1 = RectangleWave::new();
        self.regs.sound2 = RectangleWave::new();
        // Save the RAM contents
        self.regs.sound3 = RamWave::with_ram(&self.regs.sound3);
        self.regs.sound4 = LfsrWave::new();
        self.regs.so1 = SoundOutput::new();
        self.regs.so2 = SoundOutput::new();
    }
}

} // verus!
