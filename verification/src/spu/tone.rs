//! Laws of the rectangular channels: what the frequency sweep does to
//! the divider, and how much of each period the duty cycle keeps high.

use vstd::prelude::*;
use crate::spu::rectangle_wave::{
    DutyCycle, Sweep, SweepDirection, RectangleWave, spec_sweep_div, spec_sweep_after,
    spec_sweep, spec_duty, spec_rectangle_sample, lemma_shr_is_div,
};

verus! {

/// True when the sweep's next tick is one on which the divider is updated
pub open spec fn sweep_fires(s: Sweep) -> bool {
    s.step_duration != 0 && (s.counter + 1) % (s.step_duration as int) == 0
}

/// Between updates the divider is kept. On an update the divider moves by
/// itself shifted right by the sweep's shift: upwards it grows by that
/// much, and the sound stops once the sum no longer fits in 11 bits;
/// downwards it shrinks by that much, except with a shift of 0, which
/// keeps it. The updated divider always fits in 11 bits.
pub proof fn lemma_sweep_update(s: Sweep, div: u16)
    requires
        s.wf(),
        div <= 0x7ff,
    ensures
        !sweep_fires(s) ==> spec_sweep_div(s, div) == Some(div),
        sweep_fires(s) && s.direction == SweepDirection::Up ==> (
            spec_sweep_div(s, div) == if div + (div >> s.shift) > 0x7ff {
                None::<u16>
            } else {
                Some((div + (div >> s.shift)) as u16)
            }),
        sweep_fires(s) && s.direction == SweepDirection::Down && s.shift != 0 ==> spec_sweep_div(
            s,
            div,
        ) == Some((div - (div >> s.shift)) as u16),
        sweep_fires(s) && s.direction == SweepDirection::Down && s.shift == 0 ==> spec_sweep_div(
            s,
            div,
        ) == Some(div),
        spec_sweep_div(s, div) matches Some(d) ==> d <= 0x7ff,
        s.direction == SweepDirection::Up ==> (spec_sweep_div(s, div) matches Some(d) ==> d
            >= div),
        s.direction == SweepDirection::Down ==> (spec_sweep_div(s, div) matches Some(d) ==> d
            <= div),
{
    lemma_shr_is_div(div, s.shift);
    let sc = ((s.counter + 1) % (s.step_duration as int)) as u32;
    if s.step_duration != 0 {
        assert(sc as int == (s.counter + 1) % (s.step_duration as int));
    }
}

/// NR10 gives the shift in bits [2:0] and the direction in bit 3 (set
/// for down); a step duration field of 0 turns the sweep off, which then
/// keeps the divider.
pub proof fn lemma_sweep_register(val: u8, div: u16)
    requires
        div <= 0x7ff,
    ensures
        spec_sweep(val).shift == val & 7,
        (val & 8 == 0) == (spec_sweep(val).direction == SweepDirection::Up),
        spec_sweep(val).counter == 0,
        (val & 0x70 == 0) == (spec_sweep(val).step_duration == 0),
        val & 0x70 == 0 ==> spec_sweep_div(spec_sweep(val), div) == Some(div),
{
    assert(val % 8 == val & 7) by (bit_vector);
    assert(((val / 16) % 8 == 0) == (val & 0x70 == 0)) by (bit_vector);
}

/// The counter of an active sweep counts ticks modulo its step duration;
/// an inactive sweep never changes.
pub proof fn lemma_sweep_counter(s: Sweep)
    requires
        s.wf(),
    ensures
        s.step_duration == 0 ==> spec_sweep_after(s) == s,
        s.step_duration != 0 ==> spec_sweep_after(s).counter == (s.counter + 1) % (
        s.step_duration as int),
        s.step_duration != 0 ==> spec_sweep_after(s).counter < s.step_duration,
        spec_sweep_after(s).direction == s.direction,
        spec_sweep_after(s).shift == s.shift,
        spec_sweep_after(s).step_duration == s.step_duration,
{
}

/// Number of high phases out of 8 for each duty cycle: 12.5%, 25%, 50%
/// and 75% of the period
pub open spec fn high_phases(d: DutyCycle) -> int {
    match d {
        DutyCycle::Duty13 => 1,
        DutyCycle::Duty25 => 2,
        DutyCycle::Duty50 => 4,
        DutyCycle::Duty75 => 6,
    }
}

/// A running wave outputs its envelope's volume in the first phases of
/// each period, as many of the 8 as its duty cycle keeps high, and
/// silence in the others; a stopped wave is silent.
pub proof fn lemma_duty_cycle(w: RectangleWave, p: u8)
    requires
        p < 8,
    ensures
        !w.running ==> spec_rectangle_sample(RectangleWave { phase: p, ..w }) == 0,
        w.running && (p as int) < high_phases(w.duty) ==> spec_rectangle_sample(
            RectangleWave { phase: p, ..w },
        ) == w.envelope.volume.0,
        w.running && (p as int) >= high_phases(w.duty) ==> spec_rectangle_sample(
            RectangleWave { phase: p, ..w },
        ) == 0,
{
}

/// The duty field of NR11 and NR21 selects a high part of 12.5%, 25%,
/// 50% and 75% of the period (in tenths of a percent), in that order.
pub proof fn lemma_duty_field(field: u8)
    requires
        field < 4,
    ensures
        high_phases(spec_duty(field)) * 1000 / 8 == if field == 0 {
            125int
        } else if field == 1 {
            250
        } else if field == 2 {
            500
        } else {
            750
        },
{
}

} // verus!
