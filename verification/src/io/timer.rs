//! Timer emulation

use vstd::prelude::*;

verus! {

/// Possible divider values usable as timer clock source.
#[derive(Clone, Copy, PartialEq, Eq, Structural, Debug)]
pub enum Divider {
    /// Divide sysclk by 16. Timer clock is 262.144kHz
    Div16,
    /// Divide sysclk by 64. Timer clock is 65.536kHz
    Div64,
    /// Divide sysclk by 256. Timer clock is 16.384kHz
    Div256,
    /// Divide sysclk by 1024. Timer clock is 4.096kHz
    Div1024,
}

/// Number of system clock ticks per timer tick
pub open spec fn spec_period(d: Divider) -> u32 {
    match d {
        Divider::Div16 => 16,
        Divider::Div64 => 64,
        Divider::Div256 => 256,
        Divider::Div1024 => 1024,
    }
}

/// Divider selected by the two low bits of TAC
pub open spec fn spec_divider(field: u8) -> Divider {
    if field % 4 == 0 {
        Divider::Div1024
    } else if field % 4 == 1 {
        Divider::Div16
    } else if field % 4 == 2 {
        Divider::Div64
    } else {
        Divider::Div256
    }
}

/// TAC field value selecting divider `d`
pub open spec fn spec_divider_field(d: Divider) -> u8 {
    match d {
        Divider::Div1024 => 0,
        Divider::Div16 => 1,
        Divider::Div64 => 2,
        Divider::Div256 => 3,
    }
}

impl Divider {
    /// Divider selected by the two low bits of TAC value `field`
    pub fn from_field(field: u8) -> (d: Divider)
        ensures
            d == spec_divider(field),
    {
        match field % 4 {
            0 => Divider::Div1024,
            1 => Divider::Div16,
            2 => Divider::Div64,
            _ => Divider::Div256,
        }
    }

    /// Number of system clock ticks per timer tick
    pub fn period(self) -> (r: u32)
        ensures
            r == spec_period(self),
    {
        match self {
            Divider::Div16 => 16,
            Divider::Div64 => 64,
            Divider::Div256 => 256,
            Divider::Div1024 => 1024,
        }
    }
}

/// Timer state
#[derive(Clone, Copy, Debug)]
pub struct Timer {
    /// Timer counter. Generates an interrupt on overflow.
    pub counter: u8,
    /// Timer modulo: on overflow `counter` gets reloaded with that
    /// value.
    pub modulo: u8,
    /// If true timer is counting and generating interrupts
    pub enabled: bool,
    /// System clock divider. When `enabled`, at each tick of the
    /// divider clock `counter` is incremented.
    pub divider: Divider,
    /// Free-running internal counter simulating the sysclk
    pub clk: u32,
    /// Free-running counter at sysclk/256. It needs its own counter
    /// because that one can be reset
    pub counter_16k: u32,
    /// True if interrupt is pending
    pub interrupt: bool,
}

/// A stopped timer
pub open spec fn spec_timer_new() -> Timer {
    Timer {
        counter: 0,
        modulo: 0,
        enabled: false,
        divider: Divider::Div1024,
        clk: 0,
        counter_16k: 0,
        interrupt: false,
    }
}

/// Timer after one tick of the system clock: both free running
/// counters wrap around, the counter increments on each tick of the
/// divided clock and reloads the modulo (raising the interrupt) when
/// it overflows.
pub open spec fn spec_timer_step(t: Timer) -> Timer {
    let clk = ((t.clk + 1) % 0x1_0000_0000) as u32;
    let counter_16k = ((t.counter_16k + 1) % 0x1_0000_0000) as u32;
    let t1 = Timer { clk: clk, counter_16k: counter_16k, ..t };
    if !t.enabled || clk % spec_period(t.divider) != 0 {
        t1
    } else if t.counter == 0xff {
        Timer { counter: t.modulo, interrupt: true, ..t1 }
    } else {
        Timer { counter: (t.counter + 1) as u8, ..t1 }
    }
}

/// Value of the DIV register: bits [15:8] of the 16kHz counter
pub open spec fn spec_div(t: Timer) -> u8 {
    ((t.counter_16k / 256) % 256) as u8
}

/// Value of the TAC register: enable bit and divider field
pub open spec fn spec_config(t: Timer) -> u8 {
    ((if t.enabled { 4int } else { 0 }) + spec_divider_field(t.divider)) as u8
}

impl Timer {
    pub fn new() -> (t: Timer)
        ensures
            t == spec_timer_new(),
    {
        Timer {
            counter: 0,
            modulo: 0,
            enabled: false,
            divider: Divider::Div1024,
            clk: 0,
            counter_16k: 0,
            interrupt: false,
        }
    }

    pub fn step(&mut self)
        ensures
            *final(self) == spec_timer_step(*old(self)),
    {
        self.clk = self.clk.wrapping_add(1);
        self.counter_16k = self.counter_16k.wrapping_add(1);
        if !self.enabled {
            return ;
        }
        if self.clk % self.divider.period() == 0 {
            // Divided clock ticked, increment counter
            if self.counter == 0xff {
                // Timer overflowed.
                self.interrupt = true;
                self.counter = self.modulo;
            } else {
                self.counter = self.counter + 1;
            }
        }
    }

    /// Return current counter value
    pub fn counter(&self) -> (r: u8)
        ensures
            r == self.counter,
    {
        self.counter
    }

    /// Reset counter value
    pub fn set_counter(&mut self, counter: u8)
        ensures
            *final(self) == (Timer { counter: counter, ..*old(self) }),
    {
        self.counter = counter;
    }

    /// Get value of "DIV" register. It contains a free running
    /// counter of SysClk / 256 -> 16.384kHz
    pub fn div(&self) -> (r: u8)
        ensures
            r == spec_div(*self),
    {
        ((self.counter_16k / 256) % 256) as u8
    }

    /// Reset 16.384kHz counter to 0
    pub fn reset_div(&mut self)
        ensures
            *final(self) == (Timer { counter_16k: 0, ..*old(self) }),
    {
        self.counter_16k = 0;
    }

    /// Return the current value of the `modulo`
    pub fn modulo(&self) -> (r: u8)
        ensures
            r == self.modulo,
    {
        self.modulo
    }

    /// Set the value loaded into the counter when it overflows.
    pub fn set_modulo(&mut self, modulo: u8)
        ensures
            *final(self) == (Timer { modulo: modulo, ..*old(self) }),
    {
        self.modulo = modulo;
    }

    /// Configure the timer using values specified in the config register
    pub fn set_config(&mut self, cfg: u8)
        ensures
            *final(self) == (Timer {
                enabled: cfg & 4 != 0,
                divider: spec_divider(cfg),
                ..*old(self)
            }),
    {
        self.enabled = cfg & 4 != 0;
        self.divider = Divider::from_field(cfg);
    }

    /// Return configuration register value
    pub fn config(&self) -> (r: u8)
        ensures
            r == spec_config(*self),
    {
        let en: u8 = if self.enabled {
            4
        } else {
            0
        };
        let field: u8 = match self.divider {
            Divider::Div1024 => 0,
            Divider::Div16 => 1,
            Divider::Div64 => 2,
            Divider::Div256 => 3,
        };
        en + field
    }

    /// Return interrupt status
    pub fn interrupt(&self) -> (r: bool)
        ensures
            r == self.interrupt,
    {
        self.interrupt
    }

    /// Acknowledge interrupt
    pub fn ack_interrupt(&mut self)
        ensures
            *final(self) == (Timer { interrupt: false, ..*old(self) }),
    {
        self.interrupt = false;
    }

    /// Force interrupt state
    pub fn force_interrupt(&mut self, set: bool)
        ensures
            *final(self) == (Timer { interrupt: set, ..*old(self) }),
    {
        self.interrupt = set;
    }
}

/// Writing the configuration register and reading it back gives the
/// written enable bit and divider field.
pub proof fn lemma_config_roundtrip(t: Timer, cfg: u8)
    ensures
        spec_config(Timer { enabled: cfg & 4 != 0, divider: spec_divider(cfg), ..t }) == cfg % 8,
{
    assert((if cfg & 4 != 0 { 4u8 } else { 0u8 }) + cfg % 4 == cfg % 8) by (bit_vector);
}

/// Timer after `n` ticks of the system clock
pub open spec fn spec_timer_steps(t: Timer, n: nat) -> Timer
    decreases n,
{
    if n == 0 {
        t
    } else {
        spec_timer_step(spec_timer_steps(t, (n - 1) as nat))
    }
}

/// Within a period `p` of the divided clock starting after `clk`, the
/// divided clock ticks exactly once: `j` ticks after `clk`, with `j`
/// completing `clk` to a multiple of `p`.
proof fn lemma_tick_at(clk: u32, j: int, p: int)
    requires
        p == 16 || p == 64 || p == 256 || p == 1024,
        1 <= j <= p,
    ensures
        (((clk + j) % 0x1_0000_0000) % p == 0) <==> j == p - (clk as int) % p,
{
    let q = 0x1_0000_0000int / p;
    assert(p * q == 0x1_0000_0000int);
    vstd::arithmetic::div_mod::lemma_mod_mod(clk + j, p, q);
    vstd::arithmetic::div_mod::lemma_add_mod_noop(clk as int, j, p);
    let r = (clk as int) % p;
    assert(0 <= r < p);
    if j < p {
        vstd::arithmetic::div_mod::lemma_small_mod(j as nat, p as nat);
    } else {
        assert(j % p == 0) by {
            vstd::arithmetic::div_mod::lemma_mod_add_multiples_vanish(0, p);
        }
    }
    let x = r + j % p;
    assert(0 <= x < 2 * p);
    if x >= p {
        vstd::arithmetic::div_mod::lemma_mod_add_multiples_vanish(x - p, p);
        vstd::arithmetic::div_mod::lemma_small_mod((x - p) as nat, p as nat);
    } else {
        vstd::arithmetic::div_mod::lemma_small_mod(x as nat, p as nat);
    }
}

/// The first `k` ticks of a period of the divided clock, for an enabled
/// timer whose counter doesn't overflow
proof fn lemma_steps_in_period(t: Timer, k: nat)
    requires
        t.enabled,
        t.counter < 0xff,
        k <= spec_period(t.divider),
    ensures
        spec_timer_steps(t, k).clk == (t.clk + k) % 0x1_0000_0000,
        spec_timer_steps(t, k).enabled == t.enabled,
        spec_timer_steps(t, k).divider == t.divider,
        spec_timer_steps(t, k).modulo == t.modulo,
        spec_timer_steps(t, k).interrupt == t.interrupt,
        spec_timer_steps(t, k).counter == t.counter + if k >= spec_period(t.divider) - t.clk
            % spec_period(t.divider) {
            1int
        } else {
            0int
        },
    decreases k,
{
    let p = spec_period(t.divider) as int;
    if k == 0 {
        vstd::arithmetic::div_mod::lemma_small_mod(t.clk as nat, 0x1_0000_0000nat);
        assert(0 <= (t.clk as int) % p < p) by {
            vstd::arithmetic::div_mod::lemma_mod_bound(t.clk as int, p);
        }
    } else {
        lemma_steps_in_period(t, (k - 1) as nat);
        let u = spec_timer_steps(t, (k - 1) as nat);
        vstd::arithmetic::div_mod::lemma_add_mod_noop(t.clk + k - 1, 1, 0x1_0000_0000int);
        vstd::arithmetic::div_mod::lemma_small_mod(1, 0x1_0000_0000nat);
        assert((u.clk + 1) % 0x1_0000_0000int == (t.clk + k) % 0x1_0000_0000int);
        lemma_tick_at(t.clk, k as int, p);
    }
}

/// An enabled timer whose counter is below 0xff counts up by exactly
/// one over any `period` consecutive ticks of the system clock,
/// whatever the phase of its divided clock; settings and interrupt
/// stay as they were.
pub proof fn lemma_timer_period(t: Timer)
    requires
        t.enabled,
        t.counter < 0xff,
    ensures
        spec_timer_steps(t, spec_period(t.divider) as nat).counter == t.counter + 1,
        spec_timer_steps(t, spec_period(t.divider) as nat).interrupt == t.interrupt,
        spec_timer_steps(t, spec_period(t.divider) as nat).modulo == t.modulo,
{
    lemma_steps_in_period(t, spec_period(t.divider) as nat);
}

/// When the divided clock ticks while the counter is 0xff, the counter
/// reloads the modulo and the interrupt is raised.
pub proof fn lemma_timer_overflow(t: Timer)
    requires
        t.enabled,
        t.counter == 0xff,
        ((t.clk + 1) % 0x1_0000_0000) % (spec_period(t.divider) as int) == 0,
    ensures
        spec_timer_step(t).counter == t.modulo,
        spec_timer_step(t).interrupt,
{
}

} // verus!
