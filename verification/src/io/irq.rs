//! Interrupt requests as the CPU sees them

use vstd::prelude::*;
use crate::io::{InterconnectView, Interrupt, spec_read, spec_write, spec_io_write,
    spec_next_interrupt};
use crate::gpu::LcdItStatus;

verus! {

/// The interrupt flags register (IF, 0xff0f) reads back the three
/// request bits written to it (VBlank, LCD, timer); its unused upper
/// bits read as 1.
pub proof fn lemma_it_flags_read_after_write(v: InterconnectView, val: u8)
    ensures
        spec_read(spec_write(v, 0xff0f, val), 0xff0f) == 0xe0 | (val & 0x07),
{
    reveal(spec_read);
    reveal(spec_write);
    reveal(spec_io_write);
    let b0: u8 = if val & 1 != 0 { 1 } else { 0 };
    let b1: u8 = if val & 2 != 0 { 1 } else { 0 };
    let b2: u8 = if val & 4 != 0 { 1 } else { 0 };
    assert(0xe0 + 4 * b2 + 2 * b1 + b0 == 0xe0 | (val & 0x07)) by (bit_vector)
        requires
            b0 == (if val & 1 != 0 { 1u8 } else { 0u8 }),
            b1 == (if val & 2 != 0 { 1u8 } else { 0u8 }),
            b2 == (if val & 4 != 0 { 1u8 } else { 0u8 }),
    ;
}

/// The interrupt the CPU takes is one that is both requested and
/// enabled in IE: VBlank first, then the LCD interrupt, then the timer.
/// With none both requested and enabled, none is taken.
pub proof fn lemma_interrupt_priority(v: InterconnectView)
    ensures
        ({
            let vblank = v.it_enable & 1 != 0 && v.gpu.regs.it_vblank;
            let lcd = v.it_enable & 2 != 0 && v.gpu.regs.lcd_it_status == LcdItStatus::Triggered;
            let timer = v.it_enable & 4 != 0 && v.timer.interrupt;
            &&& vblank ==> spec_next_interrupt(v) == Some(Interrupt::VBlank)
            &&& !vblank && lcd ==> spec_next_interrupt(v) == Some(Interrupt::Lcdc)
            &&& !vblank && !lcd && timer ==> spec_next_interrupt(v) == Some(Interrupt::Timer)
            &&& !vblank && !lcd && !timer ==> spec_next_interrupt(v) is None
        }),
{
}

} // verus!
