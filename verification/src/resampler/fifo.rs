//! Fixed size first in, first out ring buffer

use vstd::prelude::*;

verus! {

/// Logarithm in base 2 of the buffer size.
pub const BUFFER_SIZE_LN: usize = 12;

/// Number of values a fifo holds: `1 << BUFFER_SIZE_LN`, a power of two
pub const BUFFER_SIZE: usize = 4096;

/// Distance from position `r` to position `w` on a 64 bit counter
/// that wraps around
pub open spec fn spec_dist(w: u64, r: u64) -> int {
    if w >= r {
        w - r
    } else {
        w - r + 0x1_0000_0000_0000_0000
    }
}

/// Counter after one step: it wraps around to 0
pub open spec fn spec_next(i: u64) -> u64 {
    if i == u64::MAX {
        0
    } else {
        (i + 1) as u64
    }
}

/// Two positions at most a buffer apart are in the same slot with the
/// same carry exactly when they are equal, and in the same slot with
/// different carries exactly when they are a whole buffer apart.
proof fn lemma_index_bits(w: u64, r: u64, d: u64)
    by (bit_vector)
    requires
        d <= 4096,
        w >= r ==> d == w - r,
        w < r ==> d == w - r + 0x1_0000_0000_0000_0000,
    ensures
        (w % 4096 == r % 4096 && (w & 4096 != 0) == (r & 4096 != 0)) == (d == 0),
        (w % 4096 == r % 4096 && (w & 4096 != 0) != (r & 4096 != 0)) == (d == 4096),
{
}

/// Position in the ring buffer, counted without end: the slot is the
/// count modulo the buffer size and the carry tells consecutive laps
/// apart
#[derive(Clone, Copy)]
struct Index(u64);

impl Index {
    fn new() -> (r: Index)
        ensures
            r.0 == 0,
    {
        Index(0)
    }

    /// Slot in the buffer
    fn get(self) -> (r: usize)
        ensures
            r == self.0 % 4096,
    {
        (self.0 % 4096) as usize
    }

    /// Lap parity. Uses the fact that `BUFFER_SIZE` is a power of two.
    fn carry(self) -> (r: bool)
        ensures
            r == (self.0 & 4096 != 0),
    {
        self.0 & 4096 != 0
    }

    /// Move to the next position
    fn bump(&mut self)
        ensures
            final(self).0 == spec_next(old(self).0),
    {
        self.0 = self.0.wrapping_add(1);
    }

    /// Distance from `other` to `self`. Thanks to two's complement
    /// (and the buffer size being a power of two) it is right even
    /// when the counter wraps around.
    fn distance(self, other: Index) -> (r: usize)
        requires
            spec_dist(self.0, other.0) <= BUFFER_SIZE,
        ensures
            r == spec_dist(self.0, other.0),
    {
        self.0.wrapping_sub(other.0) as usize
    }
}

/// First in, first out queue of at most `BUFFER_SIZE` values
pub struct Fifo<T> {
    buffer: Vec<T>,
    windex: Index,
    rindex: Index,
}

/// Slot of the `k`th value after position `r`
pub open spec fn spec_slot(r: u64, k: int) -> int {
    (r + k) % (BUFFER_SIZE as int)
}

impl<T: Default + Copy> Fifo<T> {
    /// The values in the fifo, oldest first
    pub closed spec fn view(&self) -> Seq<T> {
        Seq::new(
            spec_dist(self.windex.0, self.rindex.0) as nat,
            |k: int| self.buffer@[spec_slot(self.rindex.0, k)],
        )
    }

    /// A full buffer, with the writer at most a buffer ahead of the
    /// reader
    pub closed spec fn wf(&self) -> bool {
        &&& self.buffer@.len() == BUFFER_SIZE
        &&& spec_dist(self.windex.0, self.rindex.0) <= BUFFER_SIZE
    }

    /// An empty fifo
    pub fn new() -> (f: Fifo<T>)
        ensures
            f.wf(),
            f@ == Seq::<T>::empty(),
    {
        let mut buffer: Vec<T> = Vec::new();
        let mut i: usize = 0;
        while i < BUFFER_SIZE
            invariant
                i <= BUFFER_SIZE,
                buffer@.len() == i,
            decreases BUFFER_SIZE - i,
        {
            buffer.push(T::default());
            i = i + 1;
        }
        let f = Fifo { buffer, windex: Index::new(), rindex: Index::new() };
        assert(f@ =~= Seq::<T>::empty());
        f
    }

    /// `true` when the fifo holds no value
    pub fn empty(&self) -> (r: bool)
        requires
            self.wf(),
        ensures
            r == (self@.len() == 0),
    {
        proof {
            lemma_index_bits(
                self.windex.0,
                self.rindex.0,
                spec_dist(self.windex.0, self.rindex.0) as u64,
            );
        }
        // The fifo is empty if the indexes point to the same position
        // and have the same carry
        self.windex.get() == self.rindex.get() && self.windex.carry() == self.rindex.carry()
    }

    /// `true` when the fifo holds `BUFFER_SIZE` values
    pub fn full(&self) -> (r: bool)
        requires
            self.wf(),
        ensures
            r == (self@.len() == BUFFER_SIZE),
    {
        proof {
            lemma_index_bits(
                self.windex.0,
                self.rindex.0,
                spec_dist(self.windex.0, self.rindex.0) as u64,
            );
        }
        // The fifo is full if the indexes point to the same position
        // and have different carries
        self.windex.get() == self.rindex.get() && self.windex.carry() != self.rindex.carry()
    }

    /// Add `val` after the values in the fifo; fails, leaving the fifo
    /// as it was, when the fifo is full
    pub fn push(&mut self, val: T) -> (r: Result<(), ()>)
        requires
            old(self).wf(),
        ensures
            final(self).wf(),
            r is Err <==> old(self)@.len() == BUFFER_SIZE,
            r is Err ==> final(self)@ == old(self)@,
            r is Ok ==> final(self)@ == old(self)@.push(val),
    {
        if self.full() {
            Err(())
        } else {
            let ghost old_view = self@;
            let ghost len = old_view.len();
            let w = self.windex.get();
            proof {
                lemma_slot_after(self.rindex.0, self.windex.0);
            }
            self.buffer.set(w, val);
            self.windex.bump();
            proof {
                lemma_slot_distinct(self.rindex.0, len as int);
                assert(self@ =~= old_view.push(val));
            }
            Ok(())
        }
    }

    /// Take the oldest value out of the fifo; `None`, leaving the fifo
    /// as it was, when it is empty
    pub fn pop(&mut self) -> (r: Option<T>)
        requires
            old(self).wf(),
        ensures
            final(self).wf(),
            r is None <==> old(self)@.len() == 0,
            r is None ==> final(self)@ == old(self)@,
            r matches Some(v) ==> v == old(self)@[0] && final(self)@ == old(self)@.drop_first(),
    {
        if self.empty() {
            None
        } else {
            let ghost old_view = self@;
            let v = self.buffer[self.rindex.get()];
            let ghost r0 = self.rindex.0;
            self.rindex.bump();
            proof {
                lemma_slot_next(r0);
                assert(self@ =~= old_view.drop_first());
            }
            Some(v)
        }
    }

    /// Number of values in the fifo
    pub fn len(&self) -> (r: usize)
        requires
            self.wf(),
        ensures
            r == self@.len(),
    {
        self.windex.distance(self.rindex)
    }

    /// Number of values the fifo can hold
    pub fn capacity(&self) -> (r: usize)
        ensures
            r == BUFFER_SIZE,
    {
        BUFFER_SIZE
    }
}

/// The writer's slot is the one after the values in the fifo
proof fn lemma_slot_after(r: u64, w: u64)
    ensures
        spec_slot(r, spec_dist(w, r)) == w % 4096,
{
    assert(0x1_0000_0000_0000_0000int % 4096 == 0);
    vstd::arithmetic::div_mod::lemma_mod_add_multiples_vanish((w as int), 4096);
    if w < r {
        assert(r + spec_dist(w, r) == w + 0x1_0000_0000_0000_0000int);
        assert((w + 0x1_0000_0000_0000_0000int) % 4096 == w % 4096) by {
            vstd::arithmetic::div_mod::lemma_mod_multiples_vanish(
                0x1_0000_0000_0000 as int,
                w as int,
                4096,
            );
        }
    }
}

/// Less than a buffer apart, values are in distinct slots
proof fn lemma_slot_distinct(r: u64, len: int)
    requires
        0 <= len < 4096,
    ensures
        forall|k: int| 0 <= k < len ==> spec_slot(r, k) != spec_slot(r, len),
{
    assert forall|k: int| 0 <= k < len implies spec_slot(r, k) != spec_slot(r, len) by {
        let a = r + k;
        let b = r + len;
        if a % 4096 == b % 4096 {
            vstd::arithmetic::div_mod::lemma_fundamental_div_mod(a, 4096);
            vstd::arithmetic::div_mod::lemma_fundamental_div_mod(b, 4096);
            assert(b - a == 4096 * (b / 4096 - a / 4096)) by (nonlinear_arith)
                requires
                    a == 4096 * (a / 4096) + a % 4096,
                    b == 4096 * (b / 4096) + b % 4096,
                    a % 4096 == b % 4096,
            ;
            assert(0 < b - a < 4096);
            assert(false) by (nonlinear_arith)
                requires
                    b - a == 4096 * (b / 4096 - a / 4096),
                    0 < b - a < 4096,
            ;
        }
    }
}

/// After the reader moves on, the slots of the values are those of the
/// values after the first one
proof fn lemma_slot_next(r: u64)
    ensures
        forall|k: int| #[trigger] spec_slot(spec_next(r), k) == spec_slot(r, k + 1),
{
    assert forall|k: int| #[trigger] spec_slot(spec_next(r), k) == spec_slot(r, k + 1) by {
        if r == u64::MAX {
            assert(r + k + 1 == k + 0x1_0000_0000_0000_0000int);
            vstd::arithmetic::div_mod::lemma_mod_multiples_vanish(
                0x1_0000_0000_0000 as int,
                k,
                4096,
            );
        }
    }
}

/// Values leave the fifo in the order they entered it: pushing a value
/// changes neither which value pops next nor what remains before the
/// pushed value, and into an empty fifo the pushed value is the next
/// to pop.
pub proof fn lemma_fifo_order<T>(s: Seq<T>, v: T)
    ensures
        s.len() == 0 ==> s.push(v)[0] == v && s.push(v).drop_first() == s,
        s.len() > 0 ==> s.push(v)[0] == s[0] && s.push(v).drop_first() == s.drop_first().push(v),
{
    if s.len() > 0 {
        assert(s.push(v).drop_first() =~= s.drop_first().push(v));
    } else {
        assert(s.push(v).drop_first() =~= s);
    }
}

/// A consistent fifo never holds more than `BUFFER_SIZE` values: the
/// writer is never more than a buffer ahead of the reader.
pub proof fn lemma_fifo_bounded<T: Default + Copy>(f: &Fifo<T>)
    requires
        f.wf(),
    ensures
        f@.len() <= BUFFER_SIZE,
{
}

/// Contents after pushing the values `xs` in order onto contents `s`
pub open spec fn spec_pushes<T>(s: Seq<T>, xs: Seq<T>) -> Seq<T>
    decreases xs.len(),
{
    if xs.len() == 0 {
        s
    } else {
        spec_pushes(s, xs.drop_last()).push(xs.last())
    }
}

/// Contents after `n` pops from contents `s`
pub open spec fn spec_pops<T>(s: Seq<T>, n: nat) -> Seq<T>
    decreases n,
{
    if n == 0 {
        s
    } else {
        spec_pops(s, (n - 1) as nat).drop_first()
    }
}

/// Popping `n` values gives the contents without their `n` first values
proof fn lemma_pops_skip<T>(s: Seq<T>, n: nat)
    requires
        n <= s.len(),
    ensures
        spec_pops(s, n) == s.subrange(n as int, s.len() as int),
    decreases n,
{
    if n > 0 {
        lemma_pops_skip(s, (n - 1) as nat);
        assert(s.subrange(n - 1, s.len() as int).drop_first() =~= s.subrange(
            n as int,
            s.len() as int,
        ));
    } else {
        assert(s =~= s.subrange(0, s.len() as int));
    }
}

/// Pushing values `x1`..`xn` onto an empty fifo, then popping `n`
/// times, gives back `x1`..`xn` in that order and leaves the fifo
/// empty: the `k`th pop returns the first value of what is left after
/// `k` pops, which is `xk`.
pub proof fn lemma_fifo_drain<T>(xs: Seq<T>)
    ensures
        spec_pushes(Seq::<T>::empty(), xs) == xs,
        forall|k: nat| k < xs.len() ==> #[trigger] spec_pops(xs, k)[0] == xs[k as int],
        spec_pops(xs, xs.len()).len() == 0,
    decreases xs.len(),
{
    if xs.len() > 0 {
        lemma_fifo_drain(xs.drop_last());
        assert(xs.drop_last().push(xs.last()) =~= xs);
    }
    assert forall|k: nat| k < xs.len() implies #[trigger] spec_pops(xs, k)[0] == xs[k as int] by {
        lemma_pops_skip(xs, k);
    }
    lemma_pops_skip(xs, xs.len());
}

} // verus!
