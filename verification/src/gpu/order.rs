//! Order of the sprites within a line of the sprite cache

use vstd::prelude::*;
use crate::gpu::sprite::Sprite;
use crate::gpu::{GpuView, AlphaColor, SpriteSize};
use crate::gpu::render::spec_first_sprite_color;
use crate::gpu::cache::{cache_after, covers, insert_pos, line_insert, packed, priority_over,
    lemma_insert_pos_range, lemma_cache_indices_bounded, lemma_cache_packed};

verus! {

/// The sprites of `line` are ordered from left to right
pub open spec fn sorted_by_x(line: Seq<Option<u8>>, oam: Seq<Sprite>) -> bool {
    forall|i: int, j: int|
        0 <= i < j < 10 && #[trigger] line[i] is Some && #[trigger] line[j] is Some ==> oam[line[i]->0 as int].x
            <= oam[line[j]->0 as int].x
}

/// The entries before the insertion position don't yield to the
/// inserted sprite, and the entry at that position does.
pub proof fn lemma_insert_pos_props(line: Seq<Option<u8>>, oam: Seq<Sprite>, idx: u8, i: int)
    requires
        0 <= i <= 10,
        line.len() == 10,
    ensures
        forall|k: int|
            i <= k < insert_pos(line, oam, idx, i) && k < 10 ==> #[trigger] line[k] is Some
                && !priority_over(oam, idx, line[k]->0),
        insert_pos(line, oam, idx, i) < 10 && line[insert_pos(line, oam, idx, i)] is Some
            ==> priority_over(oam, idx, line[insert_pos(line, oam, idx, i)]->0),
    decreases 10 - i,
{
    if i < 10 {
        lemma_insert_pos_props(line, oam, idx, i + 1);
    }
}

/// The lines of the cache are ordered from left to right.
pub proof fn lemma_cache_sorted(oam: Seq<Sprite>, size: SpriteSize, n: nat)
    requires
        n <= 40,
        oam.len() == 40,
    ensures
        forall|y: int| 0 <= y < 144 ==> sorted_by_x(#[trigger] cache_after(oam, size, n)[y], oam),
    decreases n,
{
    if n > 0 {
        let m = (n - 1) as nat;
        lemma_cache_sorted(oam, size, m);
        lemma_cache_indices_bounded(oam, size, m);
        lemma_cache_packed(oam, size, m);
        let c = cache_after(oam, size, m);
        let idx = m as u8;
        assert forall|y: int| 0 <= y < 144 implies sorted_by_x(
            #[trigger] cache_after(oam, size, n)[y],
            oam,
        ) by {
            let line = c[y];
            assert(sorted_by_x(line, oam));
            assert(packed(line));
            if covers(oam[idx as int], size, y) && !(line[9] is Some) {
                let p = insert_pos(line, oam, idx, 0);
                let new = line_insert(line, oam, idx);
                lemma_insert_pos_range(line, oam, idx, 0);
                lemma_insert_pos_props(line, oam, idx, 0);
                assert(new == cache_after(oam, size, n)[y]);
                assert forall|a: int, b: int|
                    0 <= a < b < 10 && #[trigger] new[a] is Some && #[trigger] new[b] is Some implies oam[new[a]->0 as int].x
                        <= oam[new[b]->0 as int].x by {
                    if a < p && b < p {
                        assert(line[a] is Some && line[b] is Some);
                    } else if a < p && b == p {
                        assert(line[a] is Some && !priority_over(oam, idx, line[a]->0));
                    } else if a < p {
                        assert(line[a] is Some && line[b - 1] is Some);
                    } else if a == p {
                        assert(line[b - 1] is Some);
                        if b - 1 > p && line[p] is None {
                            assert(line[b - 1] is None);
                        }
                        assert(line[p] is Some);
                        assert(priority_over(oam, idx, line[p]->0));
                        if b - 1 > p {
                            assert(oam[line[p]->0 as int].x <= oam[line[b - 1]->0 as int].x);
                        }
                    } else {
                        assert(line[a - 1] is Some && line[b - 1] is Some);
                    }
                }
            } else {
                assert(cache_after(oam, size, n)[y] == line);
            }
        }
    }
}

/// Sprites that all start right of the pixel don't color it.
pub proof fn lemma_right_of_pixel(
    v: GpuView,
    line: Seq<Option<u8>>,
    i: int,
    x: int,
    y: int,
    bg: AlphaColor,
    xs: int,
)
    requires
        0 <= i <= 10,
        x - (xs - 8) < 0,
        forall|j: int|
            i <= j < 10 && #[trigger] line[j] is Some ==> v.oam[line[j]->0 as int].x >= xs,
    ensures
        spec_first_sprite_color(v, line, i, x, y, bg) == bg.color,
    decreases 10 - i,
{
    if i < 10 {
        if line[i] is Some {
            assert(v.oam[line[i]->0 as int].x >= xs);
        }
        lemma_right_of_pixel(v, line, i + 1, x, y, bg, xs);
    }
}

} // verus!
