# gb_rs

A Game Boy emulator core whose behaviour is specified and proved with
Verus.

- `src/` is the verified library: the CPU (`cpu`, with the opcode
  tables, the instructions, the interrupt and halt logic of `Cpu::step`
  and laws about the stack instructions in `cpu::stack`), the memory
  map and its peripherals (`io`), the cartridge controllers and the
  real time clock (`cartridge`), the picture processing unit (`gpu`),
  the sound processing unit (`spu`), the sample fifo (`resampler`), the
  input bindings (`ui`) and the libretro constants (`libretro`).
  Each data type has an abstract view; contracts and laws are stated
  over those views.
- `app/` is the libretro core around the library: the C entry points,
  ROM and save file loading, frame and audio output.
- `tests/` runs the library on concrete values.
