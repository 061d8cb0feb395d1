//! Which tile pixel a sprite shows at each screen position

use vstd::prelude::*;
use crate::gpu::sprite::Sprite;
use crate::gpu::{GpuView, Color, AlphaColor, SpriteSize, TileSet, spec_transform};
use crate::gpu::render::{spec_sprite_contrib, spec_pix_color, spec_sprite_palette};

verus! {

/// `v` with the sprite number `idx` replaced by `s`
pub open spec fn with_sprite(v: GpuView, idx: u8, s: Sprite) -> GpuView {
    GpuView { oam: v.oam.update(idx as int, s), ..v }
}

/// A sprite colors nothing outside its 8 columns.
pub proof fn lemma_sprite_columns(v: GpuView, idx: u8, x: int, y: int, bg: AlphaColor)
    requires
        x < v.oam[idx as int].x - 8 || x >= v.oam[idx as int].x,
    ensures
        spec_sprite_contrib(v, idx, x, y, bg) is None,
{
}

/// An unflipped 8x8 sprite in front of the background shows, at column
/// `c` and row `r` of its area, the pixel at column `c` and row `r` of
/// its tile (in tile set 1) through its palette, unless that pixel is
/// transparent (color 0).
pub proof fn lemma_sprite_tile_pixel(v: GpuView, idx: u8, c: int, r: int, bg: AlphaColor)
    requires
        0 <= c < 8,
        0 <= r < 8,
        v.regs.sprite_size == SpriteSize::Sz8x8,
        !v.oam[idx as int].x_flip,
        !v.oam[idx as int].y_flip,
        !(v.oam[idx as int].background && bg.opaque),
    ensures
        ({
            let s = v.oam[idx as int];
            let pix = spec_pix_color(v.vram, s.tile, c, r, TileSet::Set1);
            spec_sprite_contrib(v, idx, s.x - 8 + c, s.y - 16 + r, bg) == if pix != Color::White {
                Some(spec_transform(spec_sprite_palette(v.regs, s), pix))
            } else {
                None
            }
        }),
{
}

/// Flipping a sprite horizontally mirrors what it shows within its 8
/// columns: column `c` of the flipped sprite is column `7 - c` of the
/// sprite.
pub proof fn lemma_x_flip_mirrors(v: GpuView, idx: u8, c: int, y: int, bg: AlphaColor)
    requires
        0 <= idx < v.oam.len(),
        0 <= c < 8,
    ensures
        ({
            let s = v.oam[idx as int];
            let flipped = with_sprite(v, idx, Sprite { x_flip: !s.x_flip, ..s });
            spec_sprite_contrib(flipped, idx, s.x - 8 + c, y, bg) == spec_sprite_contrib(
                v,
                idx,
                s.x - 8 + (7 - c),
                y,
                bg,
            )
        }),
{
}

/// Flipping a sprite vertically mirrors what it shows within its rows
/// (8, or 16 for 8x16 sprites): row `r` of the flipped sprite is row
/// `height - 1 - r` of the sprite.
pub proof fn lemma_y_flip_mirrors(v: GpuView, idx: u8, x: int, r: int, bg: AlphaColor)
    requires
        0 <= idx < v.oam.len(),
        0 <= r < (if v.regs.sprite_size == SpriteSize::Sz8x8 {
            8int
        } else {
            16
        }),
    ensures
        ({
            let s = v.oam[idx as int];
            let h = if v.regs.sprite_size == SpriteSize::Sz8x8 {
                8int
            } else {
                16
            };
            let flipped = with_sprite(v, idx, Sprite { y_flip: !s.y_flip, ..s });
            spec_sprite_contrib(flipped, idx, x, s.y - 16 + r, bg) == spec_sprite_contrib(
                v,
                idx,
                x,
                s.y - 16 + (h - 1 - r),
                bg,
            )
        }),
{
}

} // verus!
