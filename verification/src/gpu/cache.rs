//! Per-line sprite cache: for each screen line, the sprites that are
//! displayed on it. There can't be more than 10 sprites on a line:
//! only the first ones in OAM order are kept, whatever their position
//! or priority. Within a line the sprites are ordered from left to
//! right (and by OAM index when they share the same x position).

use vstd::prelude::*;
use crate::gpu::sprite::Sprite;
use crate::gpu::{Gpu, SpriteSize, spec_height};

verus! {

/// Maximum number of sprites displayed on a single line
pub const LINE_SPRITES: usize = 10;

/// Number of entries in the whole line cache
pub const CACHE_ENTRIES: usize = 1440;

/// `true` if sprite `s` is visible on line `y` for sprites of size
/// `size`
pub open spec fn covers(s: Sprite, size: SpriteSize, y: int) -> bool {
    s.y - 16 <= y < s.y - 16 + spec_height(size)
}

/// `true` if sprite number `a` is drawn on top of sprite number `b`:
/// the one with the smallest x position is on top, if both are equal
/// the one with the lowest OAM index is.
pub open spec fn priority_over(oam: Seq<Sprite>, a: u8, b: u8) -> bool {
    oam[a as int].x < oam[b as int].x || (oam[a as int].x == oam[b as int].x && a < b)
}

/// Position at which sprite `idx` must be inserted in `line`, looking
/// at entries starting at `i`
pub open spec fn insert_pos(line: Seq<Option<u8>>, oam: Seq<Sprite>, idx: u8, i: int) -> int
    decreases 10 - i,
{
    if i >= 10 || i < 0 {
        10
    } else {
        match line[i] {
            None => i,
            Some(o) => if priority_over(oam, idx, o) {
                i
            } else {
                insert_pos(line, oam, idx, i + 1)
            },
        }
    }
}

/// Line `line` after the insertion of sprite `idx`. A full line is
/// left untouched.
pub open spec fn line_insert(line: Seq<Option<u8>>, oam: Seq<Sprite>, idx: u8) -> Seq<Option<u8>> {
    if line[9] is Some {
        line
    } else {
        let p = insert_pos(line, oam, idx, 0);
        Seq::new(
            10,
            |k: int|
                if k < p {
                    line[k]
                } else if k == p {
                    Some(idx)
                } else {
                    line[k - 1]
                },
        )
    }
}

/// An empty line: no sprite
pub open spec fn empty_line() -> Seq<Option<u8>> {
    Seq::new(10, |i: int| None)
}

/// Cache after inserting the `n` first sprites of OAM
pub open spec fn cache_after(oam: Seq<Sprite>, size: SpriteSize, n: nat) -> Seq<Seq<Option<u8>>>
    decreases n,
{
    if n == 0 {
        Seq::new(144, |y: int| empty_line())
    } else {
        let c = cache_after(oam, size, (n - 1) as nat);
        let idx = (n - 1) as u8;
        Seq::new(
            144,
            |y: int|
                if covers(oam[idx as int], size, y) {
                    line_insert(c[y], oam, idx)
                } else {
                    c[y]
                },
        )
    }
}

/// The sprite cache for sprites `oam` of size `size`
#[verifier::opaque]
pub open spec fn spec_line_cache(oam: Seq<Sprite>, size: SpriteSize) -> Seq<Seq<Option<u8>>> {
    cache_after(oam, size, 40)
}

/// The flat cache `c` (10 entries per line) holds `lines`
#[verifier::opaque]
pub open spec fn cache_matches(c: Seq<Option<u8>>, lines: Seq<Seq<Option<u8>>>) -> bool {
    &&& c.len() == 1440
    &&& forall|y: int, i: int| 0 <= y < 144 && 0 <= i < 10 ==> #[trigger] c[y * 10 + i] == lines[y][i]
}

/// Two sprite sets that place their sprites identically (same
/// positions) give the same cache.
pub proof fn lemma_cache_depends_on_positions(
    oam1: Seq<Sprite>,
    oam2: Seq<Sprite>,
    size: SpriteSize,
    n: nat,
)
    requires
        n <= 40,
        oam1.len() == 40,
        oam2.len() == 40,
        forall|i: int| 0 <= i < 40 ==> #[trigger] oam1[i].x == oam2[i].x && oam1[i].y == oam2[i].y,
    ensures
        cache_after(oam1, size, n) == cache_after(oam2, size, n),
    decreases n,
{
    if n > 0 {
        lemma_cache_depends_on_positions(oam1, oam2, size, (n - 1) as nat);
        lemma_cache_indices_bounded(oam1, size, (n - 1) as nat);
        let c = cache_after(oam1, size, (n - 1) as nat);
        let idx = (n - 1) as u8;
        assert forall|y: int| 0 <= y < 144 implies cache_after(oam1, size, n)[y] == cache_after(
            oam2,
            size,
            n,
        )[y] by {
            if covers(oam1[idx as int], size, y) && !(c[y][9] is Some) {
                lemma_insert_pos_same(c[y], oam1, oam2, idx, 0);
                assert(line_insert(c[y], oam1, idx) =~= line_insert(c[y], oam2, idx));
            }
        }
        assert(cache_after(oam1, size, n) =~= cache_after(oam2, size, n));
    }
}

/// The insertion position only depends on the x positions of the
/// sprites involved.
pub proof fn lemma_insert_pos_same(
    line: Seq<Option<u8>>,
    oam1: Seq<Sprite>,
    oam2: Seq<Sprite>,
    idx: u8,
    i: int,
)
    requires
        idx < oam1.len(),
        oam1.len() == oam2.len(),
        forall|k: int| 0 <= k < oam1.len() ==> #[trigger] oam1[k].x == oam2[k].x,
        forall|k: int| 0 <= k < 10 ==> (#[trigger] line[k] matches Some(o) ==> o < oam1.len()),
    ensures
        insert_pos(line, oam1, idx, i) == insert_pos(line, oam2, idx, i),
    decreases 10 - i,
{
    if 0 <= i < 10 {
        lemma_insert_pos_same(line, oam1, oam2, idx, i + 1);
        if let Some(o) = line[i] {
            assert(oam1[o as int].x == oam2[o as int].x);
        }
    }
}

/// All the entries of the cache are indices of sprites that were
/// inserted and that cover the line.
pub proof fn lemma_cache_indices_bounded(oam: Seq<Sprite>, size: SpriteSize, n: nat)
    requires
        n <= 40,
        oam.len() == 40,
    ensures
        cache_after(oam, size, n).len() == 144,
        forall|y: int| 0 <= y < 144 ==> #[trigger] cache_after(oam, size, n)[y].len() == 10,
        forall|y: int, k: int|
            0 <= y < 144 && 0 <= k < 10 ==> (#[trigger] cache_after(oam, size, n)[y][k] matches Some(
                o,
            ) ==> o < n && covers(oam[o as int], size, y)),
    decreases n,
{
    if n > 0 {
        lemma_cache_indices_bounded(oam, size, (n - 1) as nat);
        let c = cache_after(oam, size, (n - 1) as nat);
        let idx = (n - 1) as u8;
        assert forall|y: int, k: int| 0 <= y < 144 && 0 <= k < 10 implies (#[trigger] cache_after(
            oam,
            size,
            n,
        )[y][k] matches Some(o) ==> o < n && covers(oam[o as int], size, y)) by {
            if covers(oam[idx as int], size, y) && !(c[y][9] is Some) {
                lemma_insert_pos_range(c[y], oam, idx, 0);
            }
        }
    }
}

/// The insertion position in a line that isn't full is a valid index.
pub proof fn lemma_insert_pos_range(line: Seq<Option<u8>>, oam: Seq<Sprite>, idx: u8, i: int)
    requires
        0 <= i <= 10,
        line.len() == 10,
        !(line[9] is Some),
    ensures
        i <= insert_pos(line, oam, idx, i) <= 9 || i == 10,
        i < 10 ==> insert_pos(line, oam, idx, i) <= 9,
    decreases 10 - i,
{
    if i < 10 {
        lemma_insert_pos_range(line, oam, idx, i + 1);
    }
}

/// Lines of `c` with line `y` replaced by `line`
pub open spec fn replace_line(c: Seq<Seq<Option<u8>>>, y: int, line: Seq<Option<u8>>) -> Seq<
    Seq<Option<u8>>,
> {
    c.update(y, line)
}

impl Gpu {
    /// Rebuild the entire Sprite cache for each line. This is pretty
    /// expensive.
    pub(super) fn rebuild_line_cache(&mut self)
        requires
            old(self).oam@.len() == 40,
        ensures
            final(self).oam == old(self).oam,
            final(self).vram == old(self).vram,
            final(self).frame == old(self).frame,
            final(self).regs == old(self).regs,
            cache_matches(
                final(self).line_cache@,
                spec_line_cache(old(self).oam@, old(self).regs.sprite_size),
            ),
    {
        reveal(cache_matches);
        // Clear the cache
        let mut cache: Vec<Option<u8>> = Vec::new();
        while cache.len() < CACHE_ENTRIES
            invariant
                cache.len() <= CACHE_ENTRIES,
                forall|k: int| 0 <= k < cache.len() ==> #[trigger] cache@[k] is None,
            decreases CACHE_ENTRIES - cache.len(),
        {
            cache.push(None);
        }
        self.line_cache = cache;
        assert(cache_matches(self.line_cache@, cache_after(self.oam@, self.regs.sprite_size, 0)));
        // Rebuild it
        let mut i: u8 = 0;
        while i < 40
            invariant
                i <= 40,
                self.oam@.len() == 40,
                self.oam == old(self).oam,
                self.vram == old(self).vram,
                self.frame == old(self).frame,
                self.regs == old(self).regs,
                cache_matches(
                    self.line_cache@,
                    cache_after(self.oam@, self.regs.sprite_size, i as nat),
                ),
            decreases 40 - i,
        {
            proof {
                reveal(cache_matches);
            }
            self.cache_sprite(i);
            i = i + 1;
        }
        proof {
            reveal(spec_line_cache);
        }
    }

    /// Insert sprite at `index` into the line cache
    fn cache_sprite(&mut self, index: u8)
        requires
            index < 40,
            old(self).oam@.len() == 40,
            cache_matches(
                old(self).line_cache@,
                cache_after(old(self).oam@, old(self).regs.sprite_size, index as nat),
            ),
        ensures
            final(self).oam == old(self).oam,
            final(self).vram == old(self).vram,
            final(self).frame == old(self).frame,
            final(self).regs == old(self).regs,
            cache_matches(
                final(self).line_cache@,
                cache_after(old(self).oam@, old(self).regs.sprite_size, (index + 1) as nat),
            ),
    {
        reveal(cache_matches);
        let ghost oam = self.oam@;
        let ghost size = self.regs.sprite_size;
        let ghost prev = cache_after(oam, size, index as nat);
        let ghost next = cache_after(oam, size, (index + 1) as nat);
        proof {
            lemma_cache_indices_bounded(oam, size, index as nat);
            lemma_cache_packed(oam, size, index as nat);
        }
        let sprite = self.oam[index as usize];
        let height = self.regs.sprite_size.height() as i32;
        let start = sprite.top_line();
        let end = start + height;
        let mut y = start;
        assert(Seq::new(144, |yy: int| if yy < start { next[yy] } else { prev[yy] }) =~= prev);
        while y < end
            invariant
                start <= y <= end,
                start == sprite.y - 16,
                end == start + spec_height(size),
                sprite == oam[index as int],
                index < 40,
                oam.len() == 40,
                self.oam@ == oam,
                self.regs.sprite_size == size,
                self.oam == old(self).oam,
                self.vram == old(self).vram,
                self.frame == old(self).frame,
                self.regs == old(self).regs,
                prev == cache_after(oam, size, index as nat),
                next == cache_after(oam, size, (index + 1) as nat),
                forall|yy: int| 0 <= yy < 144 ==> #[trigger] prev[yy].len() == 10,
                prev.len() == 144,
                forall|yy: int, k: int|
                    0 <= yy < 144 && 0 <= k < 10 ==> (#[trigger] prev[yy][k] matches Some(o) ==> o
                        < index),
                forall|yy: int| 0 <= yy < 144 ==> packed(#[trigger] prev[yy]),
                cache_matches(
                    self.line_cache@,
                    Seq::new(144, |yy: int| if yy < y { next[yy] } else { prev[yy] }),
                ),
            decreases end - y,
        {
            proof {
                reveal(cache_matches);
            }
            let ghost cur = Seq::new(144, |yy: int| if yy < y { next[yy] } else { prev[yy] });
            if 0 <= y && y < 144 {
                self.insert_in_line(y as usize, index, Ghost(cur));
                assert(replace_line(cur, y as int, line_insert(cur[y as int], oam, index)) =~= Seq::new(
                    144,
                    |yy: int| if yy < y + 1 { next[yy] } else { prev[yy] },
                ));
            } else {
                assert(cur =~= Seq::new(144, |yy: int| if yy < y + 1 { next[yy] } else { prev[yy] }));
            }
            y = y + 1;
        }
        assert(Seq::new(144, |yy: int| if yy < y { next[yy] } else { prev[yy] }) =~= next);
    }

    /// Insert sprite `index` in the cache line `y`
    fn insert_in_line(&mut self, y: usize, index: u8, Ghost(lines): Ghost<Seq<Seq<Option<u8>>>>)
        requires
            y < 144,
            index < 40,
            old(self).oam@.len() == 40,
            lines.len() == 144,
            forall|yy: int| 0 <= yy < 144 ==> #[trigger] lines[yy].len() == 10,
            forall|k: int|
                0 <= k < 10 ==> (#[trigger] lines[y as int][k] matches Some(o) ==> o < 40),
            packed(lines[y as int]),
            cache_matches(old(self).line_cache@, lines),
        ensures
            final(self).oam == old(self).oam,
            final(self).vram == old(self).vram,
            final(self).frame == old(self).frame,
            final(self).regs == old(self).regs,
            cache_matches(
                final(self).line_cache@,
                replace_line(lines, y as int, line_insert(lines[y as int], old(self).oam@, index)),
            ),
    {
        reveal(cache_matches);
        let ghost line = lines[y as int];
        let ghost oam = self.oam@;
        let base = y * 10;
        assert(self.line_cache@[base + 9] == line[9]);
        if self.line_cache[base + 9].is_some() {
            // We reached the sprite limit for that line, we can
            // display no more.
            assert(replace_line(lines, y as int, line_insert(line, oam, index)) =~= lines);
            return ;
        }
        let ghost p = insert_pos(line, oam, index, 0);
        proof {
            lemma_insert_pos_range(line, oam, index, 0);
        }
        let ghost new_line = line_insert(line, oam, index);
        let ghost new_lines = replace_line(lines, y as int, new_line);
        let sx = self.oam[index as usize].x;
        // Insert sprite into the cache for this line. We order
        // the sprites from left to right and from highest to
        // lowest priority.
        let mut i: usize = 0;
        while i < 10
            invariant
                0 <= i <= 10,
                base == y * 10,
                y < 144,
                index < 40,
                sx == oam[index as int].x,
                self.oam@ == oam,
                self.oam == old(self).oam,
                self.vram == old(self).vram,
                self.frame == old(self).frame,
                self.regs == old(self).regs,
                self.line_cache@ == old(self).line_cache@,
                oam.len() == 40,
                line == lines[y as int],
                line.len() == 10,
                !(line[9] is Some),
                packed(line),
                lines.len() == 144,
                forall|yy: int| 0 <= yy < 144 ==> #[trigger] lines[yy].len() == 10,
                forall|k: int| 0 <= k < 10 ==> (#[trigger] line[k] matches Some(o) ==> o < 40),
                cache_matches(self.line_cache@, lines),
                p == insert_pos(line, oam, index, 0),
                p == insert_pos(line, oam, index, i as int),
                new_line == line_insert(line, oam, index),
                new_lines == replace_line(lines, y as int, new_line),
            decreases 10 - i,
        {
            proof {
                reveal(cache_matches);
            }
            assert(self.line_cache@[base + i] == line[i as int]);
            match self.line_cache[base + i] {
                None => {
                    // This cache entry is empty, use it to hold our
                    // sprite
                    assert(p == i);
                    self.line_cache.set(base + i, Some(index));
                    assert forall|yy: int, k: int| 0 <= yy < 144 && 0 <= k < 10 implies #[trigger] self.line_cache@[yy * 10 + k] == new_lines[yy][k] by {
                        if yy == y && k > i {
                            assert(line[i as int] is None);
                            assert(line[k] is None);
                            assert(line[k - 1] is None);
                        }
                    }
                    return ;
                },
                Some(other) => {
                    let ox = self.oam[other as usize].x;
                    // When sprites overlap the one with the smallest x
                    // pos is on top. If the x values are equal then the
                    // offset in OAM is used.
                    if sx < ox || (sx == ox && index < other) {
                        // Our sprite is higher priority, move the rest of
                        // the cacheline one place. We know that the last
                        // item is None since it's checked above.
                        assert(p == i);
                        let mut j: usize = 9;
                        while j > i
                            invariant
                                i <= j <= 9,
                                i < 10,
                                base == y * 10,
                                y < 144,
                                lines.len() == 144,
                                line == lines[y as int],
                                line.len() == 10,
                                forall|yy: int| 0 <= yy < 144 ==> #[trigger] lines[yy].len() == 10,
                                self.line_cache@.len() == 1440,
                                forall|yy: int, k: int|
                                    0 <= yy < 144 && 0 <= k < 10 ==> #[trigger] self.line_cache@[yy
                                        * 10 + k] == if yy != y || k <= j {
                                        lines[yy][k]
                                    } else {
                                        lines[yy][k - 1]
                                    },
                                self.oam == old(self).oam,
                                self.vram == old(self).vram,
                                self.frame == old(self).frame,
                                self.regs == old(self).regs,
                            decreases j,
                        {
                            let v = self.line_cache[base + j - 1];
                            assert(self.line_cache@[y as int * 10 + (j - 1) as int] == line[j
                                - 1]);
                            assert(v == line[j - 1]);
                            self.line_cache.set(base + j, v);
                            j = j - 1;
                        }
                        self.line_cache.set(base + i, Some(index));
                        assert forall|yy: int, k: int| 0 <= yy < 144 && 0 <= k < 10 implies #[trigger] self.line_cache@[yy * 10 + k] == new_lines[yy][k] by {
                        }
                        return ;
                    }
                },
            }
            i = i + 1;
        }
        // Unreachable since the last entry of the line is free
        assert(false);
    }
}

/// `true` if the free slots of `line` are all at its end
pub open spec fn packed(line: Seq<Option<u8>>) -> bool {
    forall|i: int, k: int| 0 <= i < k < 10 && #[trigger] line[i] is None ==> #[trigger] line[k] is None
}

/// The lines of the cache are packed: the sprites come first, then
/// the free slots.
pub proof fn lemma_cache_packed(oam: Seq<Sprite>, size: SpriteSize, n: nat)
    requires
        n <= 40,
        oam.len() == 40,
    ensures
        forall|y: int| 0 <= y < 144 ==> packed(#[trigger] cache_after(oam, size, n)[y]),
    decreases n,
{
    if n > 0 {
        lemma_cache_packed(oam, size, (n - 1) as nat);
        lemma_cache_indices_bounded(oam, size, (n - 1) as nat);
        let c = cache_after(oam, size, (n - 1) as nat);
        let idx = (n - 1) as u8;
        assert forall|y: int| 0 <= y < 144 implies packed(#[trigger] cache_after(oam, size, n)[y]) by {
            if covers(oam[idx as int], size, y) && !(c[y][9] is Some) {
                lemma_insert_pos_range(c[y], oam, idx, 0);
                lemma_insert_pos_before_none(c[y], oam, idx, 0);
            }
        }
    }
}

/// In a packed line, a sprite is never inserted after a free slot.
pub proof fn lemma_insert_pos_before_none(line: Seq<Option<u8>>, oam: Seq<Sprite>, idx: u8, i: int)
    requires
        0 <= i <= 10,
        line.len() == 10,
    ensures
        forall|k: int| i <= k < insert_pos(line, oam, idx, i) && k < 10 ==> #[trigger] line[k] is Some,
    decreases 10 - i,
{
    if i < 10 {
        lemma_insert_pos_before_none(line, oam, idx, i + 1);
    }
}

/// Number of sprites among the `n` first in OAM order that cover line
/// `y`
pub open spec fn covering_before(oam: Seq<Sprite>, size: SpriteSize, y: int, n: nat) -> nat
    decreases n,
{
    if n == 0 {
        0
    } else {
        covering_before(oam, size, y, (n - 1) as nat) + if covers(oam[n - 1], size, y) {
            1nat
        } else {
            0nat
        }
    }
}

/// The smaller of `a` and 10
pub open spec fn at_most_ten(a: nat) -> nat {
    if a < 10 {
        a
    } else {
        10
    }
}

/// Inserting a sprite into a line that holds `cnt` sprites, less than
/// 10, keeps the sprites already there and adds it.
proof fn lemma_line_insert_keeps(line: Seq<Option<u8>>, oam: Seq<Sprite>, idx: u8, cnt: nat)
    requires
        line.len() == 10,
        cnt < 10,
        forall|k: int| 0 <= k < 10 ==> (#[trigger] line[k] is Some <==> k < cnt),
        forall|k: int| 0 <= k < 10 ==> (#[trigger] line[k] matches Some(o) ==> o < idx),
    ensures
        line_insert(line, oam, idx).len() == 10,
        forall|k: int|
            0 <= k < 10 ==> (#[trigger] line_insert(line, oam, idx)[k] is Some <==> k < cnt + 1),
        line_insert(line, oam, idx).contains(Some(idx)),
        forall|o: u8|
            o < idx ==> (#[trigger] line_insert(line, oam, idx).contains(Some(o)) <==> line.contains(
                Some(o),
            )),
{
    let p = insert_pos(line, oam, idx, 0);
    let new = line_insert(line, oam, idx);
    assert(!(line[9] is Some));
    lemma_insert_pos_range(line, oam, idx, 0);
    lemma_insert_pos_before_none(line, oam, idx, 0);
    if p > cnt {
        assert(line[cnt as int] is Some);
    }
    assert(p <= cnt);
    assert(new[p] == Some(idx));
    assert forall|o: u8| o < idx implies (#[trigger] new.contains(Some(o)) <==> line.contains(
        Some(o),
    )) by {
        if line.contains(Some(o)) {
            let k = choose|k: int| 0 <= k < line.len() && line[k] == Some(o);
            if k < p {
                assert(new[k] == Some(o));
            } else {
                assert(new[k + 1] == Some(o));
            }
        }
        if new.contains(Some(o)) {
            let k = choose|k: int| 0 <= k < new.len() && new[k] == Some(o);
            if k < p {
                assert(line[k] == Some(o));
            } else {
                assert(line[k - 1] == Some(o));
            }
        }
    }
}

/// Line `y` of the cache after inserting the `n` first sprites holds
/// the sprites covering it among those, up to 10, and a sprite is in it
/// exactly when it covers the line and fewer than 10 sprites before it
/// in OAM order do.
pub open spec fn line_counts(oam: Seq<Sprite>, size: SpriteSize, n: nat, y: int) -> bool {
    &&& forall|k: int|
        0 <= k < 10 ==> (#[trigger] cache_after(oam, size, n)[y][k] is Some <==> k < at_most_ten(
            covering_before(oam, size, y, n),
        ))
    &&& forall|i: int|
        0 <= i < n ==> (#[trigger] cache_after(oam, size, n)[y].contains(Some(i as u8)) <==> covers(
            oam[i],
            size,
            y,
        ) && covering_before(oam, size, y, i as nat) < 10)
}

/// Lines of the cache after inserting the `n` first sprites: a line
/// holds the sprites covering it among those, up to 10, and a sprite
/// is in it exactly when it covers the line and fewer than 10 sprites
/// before it in OAM order do.
proof fn lemma_cache_counts(oam: Seq<Sprite>, size: SpriteSize, n: nat)
    requires
        n <= 40,
        oam.len() == 40,
    ensures
        forall|y: int| 0 <= y < 144 ==> #[trigger] line_counts(oam, size, n, y),
    decreases n,
{
    lemma_cache_indices_bounded(oam, size, n);
    if n > 0 {
        let m = (n - 1) as nat;
        lemma_cache_counts(oam, size, m);
        lemma_cache_indices_bounded(oam, size, m);
        let c = cache_after(oam, size, m);
        let idx = m as u8;
        assert forall|y: int| 0 <= y < 144 implies #[trigger] line_counts(oam, size, n, y) by {
            assert(line_counts(oam, size, m, y));
            let line = c[y];
            let cnt = covering_before(oam, size, y, m);
            assert(line.len() == 10);
            assert forall|k: int| 0 <= k < 10 implies (#[trigger] line[k] matches Some(o) ==> o
                < idx) by {
                assert(c[y][k] matches Some(o) ==> o < m);
            }
            if covers(oam[idx as int], size, y) && cnt < 10 {
                assert forall|k: int| 0 <= k < 10 implies (#[trigger] line[k] is Some <==> k
                    < cnt) by {
                    assert(c[y][k] is Some <==> k < at_most_ten(cnt));
                }
                lemma_line_insert_keeps(line, oam, idx, cnt);
                assert(!(line[9] is Some)) by {
                    assert(c[y][9] is Some <==> 9 < at_most_ten(cnt));
                }
                assert(cache_after(oam, size, n)[y] == line_insert(line, oam, idx));
                assert forall|i: int| 0 <= i < n implies (#[trigger] cache_after(
                    oam,
                    size,
                    n,
                )[y].contains(Some(i as u8)) <==> covers(oam[i], size, y) && covering_before(
                    oam,
                    size,
                    y,
                    i as nat,
                ) < 10) by {
                    if i < m {
                        assert((i as u8) < idx);
                        assert(c[y].contains(Some(i as u8)) <==> covers(oam[i], size, y)
                            && covering_before(oam, size, y, i as nat) < 10);
                    }
                }
            } else {
                if covers(oam[idx as int], size, y) {
                    assert(line[9] is Some) by {
                        assert(c[y][9] is Some <==> 9 < at_most_ten(cnt));
                    }
                }
                assert(cache_after(oam, size, n)[y] == line);
                assert forall|k: int| 0 <= k < 10 implies (#[trigger] cache_after(
                    oam,
                    size,
                    n,
                )[y][k] is Some <==> k < at_most_ten(covering_before(oam, size, y, n))) by {
                    assert(c[y][k] is Some <==> k < at_most_ten(cnt));
                }
                assert forall|i: int| 0 <= i < n implies (#[trigger] cache_after(
                    oam,
                    size,
                    n,
                )[y].contains(Some(i as u8)) <==> covers(oam[i], size, y) && covering_before(
                    oam,
                    size,
                    y,
                    i as nat,
                ) < 10) by {
                    if i < m {
                        assert(c[y].contains(Some(i as u8)) <==> covers(oam[i], size, y)
                            && covering_before(oam, size, y, i as nat) < 10);
                    } else {
                        if line.contains(Some(i as u8)) {
                            let k = choose|k: int| 0 <= k < line.len() && line[k] == Some(i as u8);
                            assert(c[y][k] matches Some(o) ==> o < m);
                        }
                    }
                }
            }
        }
    }
}

/// When more than 10 sprites cover a line, only the first 10 in OAM
/// order are displayed on it: a sprite is in the line cache exactly
/// when it covers the line and fewer than 10 sprites before it in OAM
/// order do. Its position and priority don't matter.
pub proof fn lemma_first_ten_sprites(oam: Seq<Sprite>, size: SpriteSize, y: int, idx: int)
    requires
        oam.len() == 40,
        0 <= y < 144,
        0 <= idx < 40,
    ensures
        spec_line_cache(oam, size)[y].contains(Some(idx as u8)) <==> covers(oam[idx], size, y)
            && covering_before(oam, size, y, idx as nat) < 10,
{
    reveal(spec_line_cache);
    lemma_cache_counts(oam, size, 40);
    assert(line_counts(oam, size, 40, y));
    assert(cache_after(oam, size, 40)[y].contains(Some(idx as u8)) <==> covers(oam[idx], size, y)
        && covering_before(oam, size, y, idx as nat) < 10);
}

} // verus!
