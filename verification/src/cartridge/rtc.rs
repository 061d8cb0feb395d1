//! Game Boy MBC3 Real Time Clock emulation
//!
//! The RTC in the cartridge is backed by a 32.568kHz oscillator so it
//! could be simulated with the emulated clock like the other counters
//! in the game boy, however that would drift from the wall clock time
//! and there would be no way to compute the new value when the
//! emulator is stopped and restarted from a save file later.
//!
//! Instead a unix timestamp is used to remain synchronized with the
//! wall clock and to continue "counting" when the emulator is not
//! running. That gives good portability at the cost of some possible
//! glitches if the system clock gets adjusted at runtime.

use vstd::prelude::*;

verus! {

/// RTC status
#[derive(Clone, Copy, PartialEq, Eq, Structural, Debug)]
pub enum Rtc {
    /// The RTC is halted and contains the value of the counter at the
    /// moment it was last running
    Halted(i64),
    /// The RTC is running and contains a reference time corresponding
    /// to time 0 from which the current counter value can be
    /// recomputed when necessary. This reference time is an UTC date
    /// since it's *mostly* monotonic while still being portable
    /// across systems.
    Counting(i64),
}

/// High bit of a dump, set when the RTC is halted
pub const HALTED_FLAG: u64 = 0x8000_0000_0000_0000;

/// `x` limited to the range of an `i64`
pub open spec fn spec_clamp(x: int) -> i64 {
    if x < i64::MIN {
        i64::MIN
    } else if x > i64::MAX {
        i64::MAX
    } else {
        x as i64
    }
}

/// Counter value at wall clock time `now` (in seconds since the
/// epoch). A clock that seems to run backwards reads 0.
pub open spec fn spec_counter_at(r: Rtc, now: i64) -> i64 {
    match r {
        Rtc::Halted(c) => c,
        Rtc::Counting(zeroref) => if now - zeroref >= 0 {
            spec_clamp(now - zeroref)
        } else {
            0
        },
    }
}

/// RTC started at wall clock time `now`: the 0 reference is `c`
/// seconds before `now`
pub open spec fn spec_start_at(r: Rtc, now: i64) -> Rtc {
    match r {
        Rtc::Halted(c) => Rtc::Counting(spec_clamp(now - c)),
        Rtc::Counting(_) => r,
    }
}

/// Entire state of the RTC in a `u64`
pub open spec fn spec_dump(r: Rtc) -> u64 {
    match r {
        Rtc::Halted(c) => (c as u64) | HALTED_FLAG,
        Rtc::Counting(zeroref) => zeroref as u64,
    }
}

/// RTC rebuilt from a dumped value
pub open spec fn spec_from_dump(val: u64) -> Rtc {
    if val & HALTED_FLAG != 0 {
        Rtc::Halted((val & !HALTED_FLAG) as i64)
    } else {
        Rtc::Counting(val as i64)
    }
}

/// Wall clock time in seconds since the epoch: the `sec` field of
/// what `time::get_time` returns. It depends on the system clock, so
/// nothing is stated of the value, and two calls may return anything.
#[verifier::external_body]
fn now() -> (r: i64) {
    time::get_time().sec
}

/// `a - b` limited to the range of an `i64`
fn clamped_sub(a: i64, b: i64) -> (r: i64)
    ensures
        r == spec_clamp(a - b),
{
    let d: i128 = a as i128 - b as i128;
    if d < i64::MIN as i128 {
        i64::MIN
    } else if d > i64::MAX as i128 {
        i64::MAX
    } else {
        d as i64
    }
}

impl Rtc {
    /// Build a new RTC. It starts halted with a counter set to 0
    pub fn new() -> (r: Rtc)
        ensures
            r == Rtc::Halted(0),
    {
        Rtc::Halted(0)
    }

    /// Return the current counter value
    pub fn counter(self) -> (r: i64)
        ensures
            self matches Rtc::Halted(c) ==> r == c,
            self is Counting ==> r >= 0,
    {
        match self {
            Rtc::Halted(c) => c,
            Rtc::Counting(_) => self.counter_at(now()),
        }
    }

    /// Counter value at wall clock time `now`
    pub fn counter_at(self, now: i64) -> (r: i64)
        ensures
            r == spec_counter_at(self, now),
    {
        match self {
            Rtc::Halted(c) => c,
            Rtc::Counting(zeroref) => {
                // Compute the time elapsed since the timer
                // 0-reference. UTC is not strictly monotonic (because
                // of leap seconds) and the system clock might get
                // adjusted, so a counter that seems to count
                // "backwards" reads 0.
                if (now as i128) - (zeroref as i128) >= 0 {
                    clamped_sub(now, zeroref)
                } else {
                    0
                }
            },
        }
    }

    /// Returns a `u64` containing the entire state of the RTC. This
    /// value can then be stored in a save file and restored later
    /// since the whole point of the RTC is to keep counting while the
    /// console is off.
    pub fn dump(self) -> (r: u64)
        ensures
            r == spec_dump(self),
    {
        match self {
            // The counter value won't change between now and the
            // restore: save it with the high bit set to denote that
            // the RTC is halted.
            Rtc::Halted(c) => (c as u64) | HALTED_FLAG,
            // The counter is running: save the current reference time
            // to be able to compute the difference on restart.
            Rtc::Counting(zeroref) => zeroref as u64,
        }
    }

    /// Rebuild an RTC from a value dumped with `dump`
    pub fn from_dump(val: u64) -> (r: Rtc)
        ensures
            r == spec_from_dump(val),
    {
        if val & HALTED_FLAG != 0 {
            Rtc::Halted((val & !HALTED_FLAG) as i64)
        } else {
            Rtc::Counting(val as i64)
        }
    }

    /// If the Rtc is stopped, start it
    pub fn start(&mut self)
        ensures
            *old(self) is Halted ==> *final(self) is Counting,
            *old(self) is Counting ==> *final(self) == *old(self),
    {
        if let Rtc::Halted(_) = *self {
            let n = now();
            self.start_at(n);
        }
    }

    /// Start a stopped Rtc at wall clock time `now`
    pub fn start_at(&mut self, now: i64)
        ensures
            *final(self) == spec_start_at(*old(self), now),
    {
        match *self {
            Rtc::Halted(c) => {
                // Compute the date corresponding to the 0 time
                // reference. For instance, if `c` is 300 then the
                // zeroref was 300 seconds ago.
                *self = Rtc::Counting(clamped_sub(now, c));
            },
            Rtc::Counting(_) => {},
        }
    }

    /// Stop the Rtc
    pub fn stop(&mut self)
        ensures
            *final(self) is Halted,
            *old(self) is Halted ==> *final(self) == *old(self),
            *old(self) is Counting ==> (*final(self))->Halted_0 >= 0,
    {
        let n = now();
        self.stop_at(n);
    }

    /// Stop the Rtc at wall clock time `now`: it keeps the counter
    /// value it has at that time
    pub fn stop_at(&mut self, now: i64)
        ensures
            *final(self) == Rtc::Halted(spec_counter_at(*old(self), now)),
    {
        *self = Rtc::Halted(self.counter_at(now));
    }

    /// Return the current RTC date
    pub fn date(self) -> (r: Date)
        ensures
            self matches Rtc::Halted(c) ==> r == Date(c),
            self is Counting ==> r.0 >= 0,
    {
        let n = now();
        self.date_at(n)
    }

    /// RTC date at wall clock time `now`
    pub fn date_at(self, now: i64) -> (r: Date)
        ensures
            r == Date(spec_counter_at(self, now)),
    {
        Date(self.counter_at(now))
    }
}

/// Dumping an RTC and rebuilding it gives the same RTC, for any
/// non-negative counter or reference time.
pub proof fn lemma_dump_roundtrip(r: Rtc)
    requires
        match r {
            Rtc::Halted(c) => c >= 0,
            Rtc::Counting(z) => z >= 0,
        },
    ensures
        spec_from_dump(spec_dump(r)) == r,
{
    match r {
        Rtc::Halted(c) => {
            assert(c >= 0 ==> ((c as u64) | 0x8000_0000_0000_0000u64) & 0x8000_0000_0000_0000u64
                != 0) by (bit_vector);
            assert(c >= 0 ==> (((c as u64) | 0x8000_0000_0000_0000u64)
                & !0x8000_0000_0000_0000u64) as i64 == c) by (bit_vector);
        },
        Rtc::Counting(z) => {
            assert(z >= 0 ==> (z as u64) & 0x8000_0000_0000_0000u64 == 0) by (bit_vector);
            assert((z as u64) as i64 == z) by (bit_vector);
        },
    }
}

/// Starting a halted RTC and reading it at the same instant gives
/// back the halted counter value.
pub proof fn lemma_start_keeps_counter(c: i64, now: i64)
    requires
        c >= 0,
        i64::MIN <= now - c,
    ensures
        spec_counter_at(spec_start_at(Rtc::Halted(c), now), now) == c,
{
}

/// Starting a halted RTC and stopping it at the same instant changes
/// nothing, and stopping a stopped RTC changes nothing either.
pub proof fn lemma_start_stop_same_instant(c: i64, now: i64)
    requires
        c >= 0,
        i64::MIN <= now - c,
    ensures
        Rtc::Halted(spec_counter_at(spec_start_at(Rtc::Halted(c), now), now)) == Rtc::Halted(c),
        Rtc::Halted(spec_counter_at(Rtc::Halted(c), now)) == Rtc::Halted(c),
{
    lemma_start_keeps_counter(c, now);
}

/// Struct representing a latched date, in seconds
#[derive(Clone, Copy, PartialEq, Eq, Structural, Debug)]
pub struct Date(pub i64);

/// Remainder of `t` by `m` rounded towards zero, as `%` computes it
/// on signed integers
pub open spec fn spec_rem(t: int, m: int) -> int {
    if t >= 0 {
        t % m
    } else {
        -((-t) % m)
    }
}

/// Quotient of `t` by `m` rounded towards zero, as `/` computes it on
/// signed integers
pub open spec fn spec_quot(t: int, m: int) -> int {
    if t >= 0 {
        t / m
    } else {
        -((-t) / m)
    }
}

/// Remainder of `t` by the positive `m`, rounded towards zero
fn rem(t: i64, m: i64) -> (r: i64)
    requires
        m > 0,
    ensures
        r == spec_rem(t as int, m as int),
        -m < r < m,
{
    if t >= 0 {
        t % m
    } else {
        let p: i128 = -(t as i128);
        let q: i128 = p % (m as i128);
        -(q as i64)
    }
}

/// Quotient of `t` by the positive `m`, rounded towards zero
fn quot(t: i64, m: i64) -> (r: i64)
    requires
        m >= 2,
    ensures
        r == spec_quot(t as int, m as int),
{
    if t >= 0 {
        t / m
    } else {
        let p: i128 = -(t as i128);
        let q: i128 = p / (m as i128);
        assert(q * 2 <= p) by (nonlinear_arith)
            requires
                p >= 0,
                m >= 2,
                q == p / (m as i128),
        ;
        -(q as i64)
    }
}

impl Date {
    /// Retrieve the date's seconds
    pub fn seconds(self) -> (r: u8)
        ensures
            r == spec_rem(self.0 as int, 60) as u8,
    {
        rem(self.0, 60) as u8
    }

    /// Retrieve the date's minutes
    pub fn minutes(self) -> (r: u8)
        ensures
            r == spec_rem(spec_quot(self.0 as int, 60), 60) as u8,
    {
        rem(quot(self.0, 60), 60) as u8
    }

    /// Retrieve the date's hours
    pub fn hours(self) -> (r: u8)
        ensures
            r == spec_rem(spec_quot(self.0 as int, 3600), 24) as u8,
    {
        rem(quot(self.0, 60 * 60), 24) as u8
    }

    /// Retrieve the date's days
    pub fn days(self) -> (r: i64)
        ensures
            r == spec_quot(self.0 as int, 86400),
    {
        quot(self.0, 60 * 60 * 24)
    }
}

} // verus!
