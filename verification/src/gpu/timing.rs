//! How the GPU beam moves through the lines of a frame

use vstd::prelude::*;
use crate::gpu::{GpuView, spec_gpu_step};

verus! {

/// One tick of an enabled GPU moves the beam one cycle along its line
/// (456 cycles per line); at cycle 173 it moves on to the next line
/// (154 lines, the last 10 of them the vertical blank). Reaching line
/// 144 requests the VBlank interrupt and marks the frame as ready. A
/// disabled GPU doesn't change.
pub proof fn lemma_beam_step(v: GpuView)
    requires
        v.regs.htick < 456,
        v.regs.line < 154,
    ensures
        !v.regs.enabled ==> spec_gpu_step(v) == v,
        v.regs.enabled ==> ({
            let r = spec_gpu_step(v).regs;
            &&& r.htick == (v.regs.htick + 1) % 456
            &&& r.line == if r.htick == 173 {
                (v.regs.line + 1) % 154
            } else {
                v.regs.line as int
            }
            &&& (r.htick == 173 && r.line == 144) ==> r.it_vblank && r.frame_ready
            &&& !(r.htick == 173 && r.line == 144) ==> r.it_vblank == v.regs.it_vblank
            &&& r.enabled
        }),
{
}

/// GPU after `n` ticks
pub open spec fn spec_gpu_steps(v: GpuView, n: nat) -> GpuView
    decreases n,
{
    if n == 0 {
        v
    } else {
        spec_gpu_step(spec_gpu_steps(v, (n - 1) as nat))
    }
}

/// Number of ticks from cycle `h` to the next line change
pub open spec fn ticks_to_next_line(h: int) -> int {
    if h < 173 {
        173 - h
    } else {
        173 + 456 - h
    }
}

/// The first `k` ticks of a line's worth of ticks
proof fn lemma_beam_steps(v: GpuView, k: nat)
    requires
        v.regs.enabled,
        v.regs.htick < 456,
        v.regs.line < 154,
        k <= 456,
    ensures
        spec_gpu_steps(v, k).regs.enabled,
        spec_gpu_steps(v, k).regs.htick == (v.regs.htick + k) % 456,
        spec_gpu_steps(v, k).regs.line == if k >= ticks_to_next_line(v.regs.htick as int) {
            (v.regs.line + 1) % 154
        } else {
            v.regs.line as int
        },
    decreases k,
{
    if k > 0 {
        lemma_beam_steps(v, (k - 1) as nat);
        let u = spec_gpu_steps(v, (k - 1) as nat);
        lemma_beam_step(u);
    }
}

/// An enabled GPU moves on to the next line every 456 ticks, whatever
/// the cycle it starts at, and comes back to the same cycle.
pub proof fn lemma_line_period(v: GpuView)
    requires
        v.regs.enabled,
        v.regs.htick < 456,
        v.regs.line < 154,
    ensures
        spec_gpu_steps(v, 456).regs.line == (v.regs.line + 1) % 154,
        spec_gpu_steps(v, 456).regs.htick == v.regs.htick,
{
    lemma_beam_steps(v, 456);
}

} // verus!
