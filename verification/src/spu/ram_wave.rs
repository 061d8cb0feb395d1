//! Game Boy sound 3 plays 32 4-bit samples stored in a small RAM.

use vstd::prelude::*;
use crate::spu::{Sample, Mode};

verus! {

/// Output level of sound 3 (NR32 bits [6:5])
#[derive(Clone, Copy, PartialEq, Eq, Structural, Debug)]
pub enum OutputLevel {
    /// No sound
    Mute,
    /// Samples played as stored
    Full,
    /// Samples shifted right once
    Half,
    /// Samples shifted right twice
    Quarter,
}

/// Output level described by field `f`
pub open spec fn spec_output_level(f: u8) -> OutputLevel {
    if f == 0 {
        OutputLevel::Mute
    } else if f == 1 {
        OutputLevel::Full
    } else if f == 2 {
        OutputLevel::Half
    } else {
        OutputLevel::Quarter
    }
}

/// Field value of output level `l`
pub open spec fn spec_output_level_field(l: OutputLevel) -> u8 {
    match l {
        OutputLevel::Mute => 0,
        OutputLevel::Full => 1,
        OutputLevel::Half => 2,
        OutputLevel::Quarter => 3,
    }
}

/// Sample `s` played at level `l`
pub open spec fn spec_level_process(l: OutputLevel, s: Sample) -> Sample {
    match l {
        OutputLevel::Mute => 0,
        OutputLevel::Full => s,
        OutputLevel::Half => s / 2,
        OutputLevel::Quarter => s / 4,
    }
}

impl OutputLevel {
    pub fn from_field(f: u8) -> (l: OutputLevel)
        requires
            f < 4,
        ensures
            l == spec_output_level(f),
            spec_output_level_field(l) == f,
    {
        match f {
            0 => OutputLevel::Mute,
            1 => OutputLevel::Full,
            2 => OutputLevel::Half,
            _ => OutputLevel::Quarter,
        }
    }

    pub fn into_field(self) -> (f: u8)
        ensures
            f == spec_output_level_field(self),
            f < 4,
    {
        match self {
            OutputLevel::Mute => 0,
            OutputLevel::Full => 1,
            OutputLevel::Half => 2,
            OutputLevel::Quarter => 3,
        }
    }

    pub fn process(self, s: Sample) -> (r: Sample)
        ensures
            r == spec_level_process(self, s),
    {
        match self {
            OutputLevel::Mute => 0,
            OutputLevel::Full => s,
            OutputLevel::Half => s / 2,
            OutputLevel::Quarter => s / 4,
        }
    }
}

/// Number of samples in the wave RAM
pub const WAVE_SAMPLES: usize = 32;

/// Sample RAM playback state
#[derive(Clone, Copy, Debug)]
pub struct RamWave {
    /// True if the sound is generating samples
    pub running: bool,
    /// DAC enable (NR30 bit 7)
    pub enabled: bool,
    /// Output level
    pub output_level: OutputLevel,
    /// Play mode (continuous or counter)
    pub mode: Mode,
    /// Counter for counter mode
    pub remaining: u32,
    /// Divider value configured in the registers. The actual divider
    /// value used for the counter is 2 x (0x800 - <this value>)
    pub divider: u16,
    /// Period counter
    pub counter: u16,
    /// Index of the sample being played
    pub index: u8,
    /// 4 bit samples
    pub ram: [Sample; 32],
}

/// Sound length counter reload value for `len`
pub open spec fn spec_ram_remaining(len: u8) -> u32 {
    ((256 - len) * 0x4000) as u32
}

/// A stopped wave with all registers cleared and the sample RAM `ram`
pub open spec fn spec_ram_wave_with(ram: [Sample; 32]) -> RamWave {
    RamWave {
        running: false,
        enabled: false,
        output_level: OutputLevel::Mute,
        mode: Mode::Continuous,
        remaining: 0x400000,
        divider: 0,
        counter: 0,
        index: 0,
        ram: ram,
    }
}

/// Wave after one tick of the system clock
pub open spec fn spec_ram_wave_step(w: RamWave) -> RamWave {
    if w.mode == Mode::Counter && w.remaining == 0 {
        RamWave { running: false, remaining: 0x400000, ..w }
    } else {
        let remaining = if w.mode == Mode::Counter {
            (w.remaining - 1) as u32
        } else {
            w.remaining
        };
        if !w.running {
            RamWave { remaining: remaining, ..w }
        } else {
            let (counter, index) = if w.counter == 0 {
                ((2 * (0x800 - w.divider)) as u16, ((w.index + 1) % 32) as u8)
            } else {
                (w.counter, w.index)
            };
            RamWave { remaining: remaining, counter: (counter - 1) as u16, index: index, ..w }
        }
    }
}

/// Current output sample of the wave
pub open spec fn spec_ram_wave_sample(w: RamWave) -> Sample {
    if !w.running {
        0
    } else {
        spec_level_process(w.output_level, w.ram@[w.index as int])
    }
}

impl RamWave {
    /// Consistent state: indices in range and 4 bit samples
    pub open spec fn wf(self) -> bool {
        &&& self.divider < 0x800
        &&& self.counter <= 0x1000
        &&& self.index < 32
        &&& forall|i: int| 0 <= i < 32 ==> #[trigger] self.ram@[i] < 16
    }

    pub fn new() -> (w: RamWave)
        ensures
            w == spec_ram_wave_with(w.ram),
            forall|i: int| 0 <= i < 32 ==> #[trigger] w.ram@[i] == 0,
            w.wf(),
    {
        RamWave {
            running: false,
            enabled: false,
            output_level: OutputLevel::Mute,
            mode: Mode::Continuous,
            remaining: 0x400000,
            divider: 0,
            counter: 0,
            index: 0,
            ram: [0u8; 32],
        }
    }

    /// A reset wave that keeps the sample RAM of `other`
    pub fn with_ram(other: &RamWave) -> (w: RamWave)
        requires
            other.wf(),
        ensures
            w == spec_ram_wave_with(other.ram),
            w.wf(),
    {
        RamWave {
            running: false,
            enabled: false,
            output_level: OutputLevel::Mute,
            mode: Mode::Continuous,
            remaining: 0x400000,
            divider: 0,
            counter: 0,
            index: 0,
            ram: other.ram,
        }
    }

    pub fn step(&mut self)
        requires
            old(self).wf(),
        ensures
            final(self).wf(),
            *final(self) == spec_ram_wave_step(*old(self)),
    {
        if self.mode == Mode::Counter {
            if self.remaining == 0 {
                self.running = false;
                self.remaining = 0x400000;
                return ;
            }
            self.remaining = self.remaining - 1;
        }
        if !self.running {
            return ;
        }
        if self.counter == 0 {
            self.counter = 2 * (0x800 - self.divider);
            self.index = (self.index + 1) % 32;
        }
        self.counter = self.counter - 1;
    }

    pub fn sample(&self) -> (r: Sample)
        requires
            self.wf(),
        ensures
            r == spec_ram_wave_sample(*self),
            r < 16,
    {
        if !self.running {
            return 0;
        }
        self.output_level.process(self.ram[self.index as usize])
    }

    /// Start playing from the first sample if the DAC is enabled
    pub fn start(&mut self)
        ensures
            *final(self) == (RamWave { running: old(self).enabled, index: 0, counter: 0, ..*old(self) }),
    {
        self.running = self.enabled;
        self.index = 0;
        self.counter = 0;
    }

    pub fn running(&self) -> (r: bool)
        ensures
            r == self.running,
    {
        self.running
    }

    pub fn enabled(&self) -> (r: bool)
        ensures
            r == self.enabled,
    {
        self.enabled
    }

    /// Enable or disable the DAC. Disabling it stops the sound.
    pub fn set_enabled(&mut self, enabled: bool)
        ensures
            *final(self) == (RamWave { enabled: enabled, running: old(self).running && enabled, ..*old(self) }),
    {
        self.enabled = enabled;
        if !enabled {
            self.running = false;
        }
    }

    pub fn set_length(&mut self, len: u8)
        ensures
            *final(self) == (RamWave { remaining: spec_ram_remaining(len), ..*old(self) }),
    {
        let len = len as u32;
        self.remaining = (256 - len) * 0x4000;
    }

    pub fn output_level(&self) -> (r: OutputLevel)
        ensures
            r == self.output_level,
    {
        self.output_level
    }

    pub fn set_output_level(&mut self, level: OutputLevel)
        ensures
            *final(self) == (RamWave { output_level: level, ..*old(self) }),
    {
        self.output_level = level;
    }

    pub fn divider(&self) -> (r: u16)
        ensures
            r == self.divider,
    {
        self.divider
    }

    pub fn set_divider(&mut self, divider: u16)
        requires
            divider < 0x800,
        ensures
            *final(self) == (RamWave { divider: divider, ..*old(self) }),
    {
        self.divider = divider;
    }

    pub fn mode(&self) -> (r: Mode)
        ensures
            r == self.mode,
    {
        self.mode
    }

    pub fn set_mode(&mut self, mode: Mode)
        ensures
            *final(self) == (RamWave { mode: mode, ..*old(self) }),
    {
        self.mode = mode;
    }

    pub fn ram_sample(&self, index: u8) -> (r: Sample)
        requires
            index < 32,
        ensures
            r == self.ram@[index as int],
    {
        self.ram[index as usize]
    }

    pub fn set_ram_sample(&mut self, index: u8, s: Sample)
        requires
            index < 32,
        ensures
            *final(self) == (RamWave {
                ram: vstd::array::spec_array_update(old(self).ram, index as int, s),
                ..*old(self)
            }),
    {
        self.ram[index as usize] = s;
        proof {
            broadcast use vstd::array::group_array_axioms;
        }
        assert(self.ram =~= vstd::array::spec_array_update(old(self).ram, index as int, s));
    }
}

} // verus!
