//! Game Boy emulator core: CPU, memory interconnect, graphics, sound,
//! timer and cartridge logic.

pub mod bits;
pub mod cartridge;
pub mod gpu;
pub mod io;
pub mod libretro;
pub mod spu;
pub mod resampler;
pub mod ui;
pub mod cpu;
