//! What the CPU reads and writes through the LCD and timer registers

use vstd::prelude::*;
use crate::io::{InterconnectView, spec_read, spec_write, spec_io_write};
use crate::gpu::{spec_palette, lemma_palette_roundtrip};

verus! {

/// Reading LY (0xff44) gives the line the GPU is drawing, whatever
/// LYC holds; writing it changes nothing.
pub proof fn lemma_ly_reads_line(v: InterconnectView, val: u8)
    ensures
        spec_read(v, 0xff44) == v.gpu.regs.line,
        spec_write(v, 0xff44, val) == v,
{
    reveal(spec_read);
    reveal(spec_write);
    reveal(spec_io_write);
}

/// Reading LYC (0xff45) gives the value compared with LY, not the
/// line.
pub proof fn lemma_lyc_reads_compare_value(v: InterconnectView)
    ensures
        spec_read(v, 0xff45) == v.gpu.regs.lyc,
{
    reveal(spec_read);
}

/// The scroll, compare, window position and palette registers read
/// back what was written to them.
pub proof fn lemma_lcd_regs_read_after_write(v: InterconnectView, addr: u16, val: u8)
    requires
        addr == 0xff42 || addr == 0xff43 || addr == 0xff45 || addr == 0xff47 || addr == 0xff48
            || addr == 0xff49 || addr == 0xff4a || addr == 0xff4b,
    ensures
        spec_read(spec_write(v, addr, val), addr) == val,
{
    reveal(spec_read);
    reveal(spec_write);
    reveal(spec_io_write);
    lemma_palette_roundtrip(val);
}

/// The timer counter (TIMA, 0xff05) and modulo (TMA, 0xff06) read back
/// what was written; writing DIV (0xff04) resets it to 0.
pub proof fn lemma_timer_regs(v: InterconnectView, val: u8)
    ensures
        spec_read(spec_write(v, 0xff05, val), 0xff05) == val,
        spec_read(spec_write(v, 0xff06, val), 0xff06) == val,
        spec_read(spec_write(v, 0xff04, val), 0xff04) == 0,
{
    reveal(spec_read);
    reveal(spec_write);
    reveal(spec_io_write);
}

} // verus!
