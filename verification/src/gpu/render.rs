//! Rendering of the screen pixels from the background, the window and
//! the sprites.

use vstd::prelude::*;
use crate::gpu::{
    Gpu,
    GpuView,
    GpuRegs,
    Color,
    AlphaColor,
    Palette,
    TileMap,
    TileSet,
    SpriteSize,
    SCREEN_WIDTH,
    color_of,
    spec_transform,
    spec_tile_addr,
    spec_map_base,
};
use crate::gpu::sprite::{Sprite, Palette as SpritePalette};
use crate::gpu::cache::{
    cache_matches,
    spec_line_cache,
    lemma_cache_indices_bounded,
    covers,
};
use crate::gpu::order::{sorted_by_x, lemma_cache_sorted, lemma_right_of_pixel};

verus! {

/// Color of pixel (`x`, `y`) of `tile` in tile set `set`. Each row of
/// 8 pixels is split across two contiguous bytes: the first for the
/// LSB, the 2nd for the MSB.
pub open spec fn spec_pix_color(vram: Seq<u8>, tile: u8, x: int, y: int, set: TileSet) -> Color {
    let addr = spec_tile_addr(set, tile) + 2 * y;
    let sh = (7 - x) as u8;
    let lsb = (vram[addr] >> sh) & 1;
    let msb = (vram[addr + 1] >> sh) & 1;
    color_of(msb * 2 + lsb)
}

/// Tile index of the tile at (`tx`, `ty`) in `map`
pub open spec fn spec_tile_index(vram: Seq<u8>, tx: int, ty: int, map: TileMap) -> u8 {
    vram[spec_map_base(map) + ty * 32 + tx]
}

/// Pixel (`x`, `y`) of the 256x256 background plane described by
/// `map` and `set`, through the background palette. The pixel is
/// transparent if its value before the palette is white.
pub open spec fn spec_bg_win_color(v: GpuView, x: u8, y: u8, map: TileMap, set: TileSet) -> AlphaColor {
    let tile_index = spec_tile_index(v.vram, (x / 8) as int, (y / 8) as int, map);
    let c = spec_pix_color(v.vram, tile_index, (x % 8) as int, (y % 8) as int, set);
    AlphaColor { color: spec_transform(v.regs.bgp, c), opaque: c != Color::White }
}

/// `true` if screen pixel (`x`, `y`) is in the window
pub open spec fn spec_in_window(r: GpuRegs, x: u8, y: u8) -> bool {
    x >= r.wx - 7 && y >= r.wy
}

/// Window pixel at screen position (`x`, `y`). The window X value is
/// offset by 7.
pub open spec fn spec_window_color(v: GpuView, x: u8, y: u8) -> AlphaColor {
    spec_bg_win_color(
        v,
        ((x - v.regs.wx + 7) % 256) as u8,
        ((y - v.regs.wy) % 256) as u8,
        v.regs.window_tile_map,
        v.regs.bg_win_tile_set,
    )
}

/// Background pixel at screen position (`x`, `y`), shifted by the
/// scrolling registers
pub open spec fn spec_background_color(v: GpuView, x: u8, y: u8) -> AlphaColor {
    spec_bg_win_color(
        v,
        ((x + v.regs.scx) % 256) as u8,
        ((y + v.regs.scy) % 256) as u8,
        v.regs.bg_tile_map,
        v.regs.bg_win_tile_set,
    )
}

/// Background or window pixel at screen position (`x`, `y`): the
/// window is always on top of the background
pub open spec fn spec_bg_pixel(v: GpuView, x: u8, y: u8) -> AlphaColor {
    if v.regs.window_enabled && spec_in_window(v.regs, x, y) {
        spec_window_color(v, x, y)
    } else if v.regs.bg_enabled {
        spec_background_color(v, x, y)
    } else {
        AlphaColor { color: Color::White, opaque: false }
    }
}

/// Palette used by sprite `s`
pub open spec fn spec_sprite_palette(r: GpuRegs, s: Sprite) -> Palette {
    match s.palette {
        SpritePalette::Obp0 => r.obp0,
        SpritePalette::Obp1 => r.obp1,
    }
}

/// Color that sprite `idx` gives to pixel (`x`, `y`) of a line it
/// covers, if any: the column is within the sprite, the sprite isn't
/// behind an opaque background pixel and its own pixel isn't
/// transparent (white before the palette)
pub open spec fn spec_sprite_contrib(v: GpuView, idx: u8, x: int, y: int, bg: AlphaColor) -> Option<
    Color,
> {
    let s = v.oam[idx as int];
    let sprite_x = x - (s.x - 8);
    if sprite_x < 0 || sprite_x >= 8 || (s.background && bg.opaque) {
        None
    } else {
        let sprite_y = y - (s.y - 16);
        let height = if v.regs.sprite_size == SpriteSize::Sz8x8 {
            7int
        } else {
            15int
        };
        let tile = if v.regs.sprite_size == SpriteSize::Sz8x8 {
            s.tile
        } else {
            s.tile & 0xfe
        };
        let sy = if s.y_flip {
            height - sprite_y
        } else {
            sprite_y
        };
        let sx = if s.x_flip {
            7 - sprite_x
        } else {
            sprite_x
        };
        let pix = spec_pix_color(v.vram, tile, sx, sy, TileSet::Set1);
        if pix != Color::White {
            Some(spec_transform(spec_sprite_palette(v.regs, s), pix))
        } else {
            None
        }
    }
}

/// Color of pixel (`x`, `y`) given by the first sprite of `line`, from
/// entry `i` on, that colors it; the background color if none does
pub open spec fn spec_first_sprite_color(
    v: GpuView,
    line: Seq<Option<u8>>,
    i: int,
    x: int,
    y: int,
    bg: AlphaColor,
) -> Color
    decreases 10 - i,
{
    if i < 0 || i >= 10 {
        bg.color
    } else {
        match line[i] {
            None => bg.color,
            Some(idx) => match spec_sprite_contrib(v, idx, x, y, bg) {
                Some(c) => c,
                None => spec_first_sprite_color(v, line, i + 1, x, y, bg),
            },
        }
    }
}

/// Color of screen pixel (`x`, `y`): the color of the first sprite of
/// its line (the first 10 in OAM order covering the line, ordered
/// from left to right, then by OAM index) that colors it, otherwise
/// the background or window; only the background or window when
/// sprites are off
#[verifier::opaque]
pub open spec fn spec_pixel(v: GpuView, x: u8, y: u8) -> Color {
    let bg = spec_bg_pixel(v, x, y);
    if v.regs.sprites_enabled {
        spec_first_sprite_color(
            v,
            spec_line_cache(v.oam, v.regs.sprite_size)[y as int],
            0,
            x as int,
            y as int,
            bg,
        )
    } else {
        bg.color
    }
}

/// Screen after drawing line `y`
pub open spec fn spec_render_line(v: GpuView, y: u8) -> Seq<Color> {
    Seq::new(
        v.frame.len(),
        |k: int|
            if k / 160 == y as int {
                spec_pixel(v, (k % 160) as u8, y)
            } else {
                v.frame[k]
            },
    )
}

/// The sprite pixels don't depend on the screen contents.
proof fn lemma_sprite_color_frame_independent(
    v1: GpuView,
    v2: GpuView,
    line: Seq<Option<u8>>,
    i: int,
    x: int,
    y: int,
    bg: AlphaColor,
)
    requires
        v1.regs == v2.regs,
        v1.oam == v2.oam,
        v1.vram == v2.vram,
    ensures
        spec_first_sprite_color(v1, line, i, x, y, bg) == spec_first_sprite_color(v2, line, i, x, y, bg),
    decreases 10 - i,
{
    if 0 <= i < 10 {
        lemma_sprite_color_frame_independent(v1, v2, line, i + 1, x, y, bg);
    }
}

/// The screen pixels don't depend on the screen contents.
pub proof fn lemma_pixel_frame_independent(v1: GpuView, v2: GpuView, x: u8, y: u8)
    requires
        v1.regs == v2.regs,
        v1.oam == v2.oam,
        v1.vram == v2.vram,
    ensures
        spec_pixel(v1, x, y) == spec_pixel(v2, x, y),
{
    reveal(spec_pixel);
    let bg = spec_bg_pixel(v1, x, y);
    assert(bg == spec_bg_pixel(v2, x, y));
    lemma_sprite_color_frame_independent(
        v1,
        v2,
        spec_line_cache(v1.oam, v1.regs.sprite_size)[y as int],
        0,
        x as int,
        y as int,
        bg,
    );
}

/// Extracting one bit of a byte gives 0 or 1
proof fn lemma_bit_of(b: u8, sh: u8)
    ensures
        (b >> sh) & 1 <= 1,
{
    assert((b >> sh) & 1 <= 1) by (bit_vector);
}

impl Gpu {
    /// Get the color of pixel (`x`, `y`) in `tile`.
    fn pix_color(&self, tile: u8, x: u8, y: u8, set: TileSet) -> (c: Color)
        requires
            self.wf(),
            x < 8,
            y < 16,
        ensures
            c == spec_pix_color(self@.vram, tile, x as int, y as int, set),
    {
        let base = set.tile_addr(tile);
        let addr = (base + 2 * (y as u16)) as usize;
        let sh = 7 - x;
        // Each row of 8 pixels is split across two contiguous bytes:
        // the first for the LSB, the 2nd for the MSB
        let lsb = (self.vram[addr] >> sh) & 1;
        let msb = (self.vram[addr + 1] >> sh) & 1;
        proof {
            lemma_bit_of(self.vram@[addr as int], sh);
            lemma_bit_of(self.vram@[addr + 1], sh);
        }
        Color::from_u8(msb * 2 + lsb)
    }

    /// Return the tile index for the tile at (`tx`, `ty`) in `map`
    fn tile_index(&self, tx: u8, ty: u8, map: TileMap) -> (r: u8)
        requires
            self.wf(),
            tx < 32,
            ty < 32,
        ensures
            r == spec_tile_index(self@.vram, tx as int, ty as int, map),
    {
        let base = map.base();
        let map_addr = base + (ty as u16) * 32 + (tx as u16);
        self.vram[map_addr as usize]
    }

    /// Get one pixel from either the window or the background.
    fn bg_win_color(&self, x: u8, y: u8, map: TileMap, set: TileSet) -> (c: AlphaColor)
        requires
            self.wf(),
        ensures
            c == spec_bg_win_color(self@, x, y, map, set),
    {
        let tile_map_x = x / 8;
        let tile_map_y = y / 8;
        let tile_x = x % 8;
        let tile_y = y % 8;
        // The screen is divided in 8x8 pixel tiles. It creates a
        // matrix of 32x32 tiles (As far as the GPU is concerned the
        // screen resolution is 256x256). The tile map contains one u8
        // per tile which is the index of the tile to use in the tile
        // set.
        let tile_index = self.tile_index(tile_map_x, tile_map_y, map);
        let tile_color = self.pix_color(tile_index, tile_x, tile_y, set);
        AlphaColor {
            // Transform tile_color through the palette
            color: self.regs.bgp.transform(tile_color),
            // The pixel is transparent if the value pre-palette is white
            opaque: tile_color != Color::White,
        }
    }

    /// Return `true` if the pixel at (`x`, `y`) is in the window
    fn in_window(&self, x: u8, y: u8) -> (r: bool)
        ensures
            r == spec_in_window(self@.regs, x, y),
    {
        let x = x as i32;
        let y = y as i32;
        let wx = (self.regs.wx as i32) - 7;
        let wy = self.regs.wy as i32;
        x >= wx && y >= wy
    }

    /// Get pixel in the window.
    fn window_color(&self, x: u8, y: u8) -> (c: AlphaColor)
        requires
            self.wf(),
        ensures
            c == spec_window_color(self@, x, y),
    {
        // Window X value is offset by 7 for some reason
        let px = x.wrapping_sub(self.regs.wx).wrapping_add(7);
        let py = y.wrapping_sub(self.regs.wy);
        assert(px == ((x - self.regs.wx + 7) % 256) as u8);
        assert(py == ((y - self.regs.wy) % 256) as u8);
        let map = self.regs.window_tile_map;
        let set = self.regs.bg_win_tile_set;
        self.bg_win_color(px, py, map, set)
    }

    /// Get pixel in the background.
    fn background_color(&self, x: u8, y: u8) -> (c: AlphaColor)
        requires
            self.wf(),
        ensures
            c == spec_background_color(self@, x, y),
    {
        let px = x.wrapping_add(self.regs.scx);
        let py = y.wrapping_add(self.regs.scy);
        assert(px == ((x + self.regs.scx) % 256) as u8);
        assert(py == ((y + self.regs.scy) % 256) as u8);
        let map = self.regs.bg_tile_map;
        let set = self.regs.bg_win_tile_set;
        self.bg_win_color(px, py, map, set)
    }

    /// Color of the sprite covering pixel (`x`, `y`), if any, or the
    /// background color
    fn render_sprite(&self, x: u8, y: u8, bg_col: AlphaColor) -> (c: Color)
        requires
            self.wf(),
            y < 144,
        ensures
            c == spec_first_sprite_color(
                self@,
                spec_line_cache(self@.oam, self@.regs.sprite_size)[y as int],
                0,
                x as int,
                y as int,
                bg_col,
            ),
    {
        let ghost v = self@;
        let ghost line = spec_line_cache(v.oam, v.regs.sprite_size)[y as int];
        proof {
            reveal(spec_line_cache);
            reveal(cache_matches);
            lemma_cache_indices_bounded(v.oam, v.regs.sprite_size, 40);
            lemma_cache_sorted(v.oam, v.regs.sprite_size, 40);
        }
        let base = (y as usize) * 10;
        let mut i: usize = 0;
        while i < 10
            invariant
                self.wf(),
                v == self@,
                y < 144,
                base == y * 10,
                0 <= i <= 10,
                line == spec_line_cache(v.oam, v.regs.sprite_size)[y as int],
                self.line_cache@.len() == 1440,
                forall|yy: int, k: int|
                    0 <= yy < 144 && 0 <= k < 10 ==> #[trigger] self.line_cache@[yy * 10 + k]
                        == spec_line_cache(v.oam, v.regs.sprite_size)[yy][k],
                sorted_by_x(line, v.oam),
                forall|k: int|
                    0 <= k < 10 ==> (#[trigger] line[k] matches Some(o) ==> o < 40 && covers(
                        v.oam[o as int],
                        v.regs.sprite_size,
                        y as int,
                    )),
                spec_first_sprite_color(v, line, 0, x as int, y as int, bg_col) == spec_first_sprite_color(
                    v,
                    line,
                    i as int,
                    x as int,
                    y as int,
                    bg_col,
                ),
            decreases 10 - i,
        {
            assert(self.line_cache@[y as int * 10 + i as int] == line[i as int]);
            match self.line_cache[base + i] {
                None => {
                    // Nothing left in cache
                    return bg_col.color;
                },
                Some(index) => {
                    let sprite = self.oam[index as usize];
                    let sprite_x = (x as i32) - sprite.left_column();
                    if sprite_x >= 8 {
                        // Sprite was earlier on the line
                        i = i + 1;
                        continue ;
                    }
                    if sprite_x < 0 {
                        // It's too early to draw that sprite. Since
                        // sprites are in order on the line we know
                        // there's no sprite remaining to be drawn
                        proof {
                            let sx = v.oam[index as int].x;
                            assert forall|j: int|
                                i + 1 <= j < 10 && #[trigger] line[j] is Some implies v.oam[line[j]->0 as int].x
                                >= sx by {
                                assert(line[i as int] is Some);
                            }
                            lemma_right_of_pixel(v, line, i + 1, x as int, y as int, bg_col, sx as int);
                        }
                        return bg_col.color;
                    }
                    if sprite.background() && bg_col.opaque {
                        // Sprite is covered by the background
                        i = i + 1;
                        continue ;
                    }
                    let sprite_y = (y as i32) - sprite.top_line();
                    let (height, tile) = match self.regs.sprite_size {
                        SpriteSize::Sz8x8 => (7i32, sprite.tile()),
                        // For 16pix tiles the LSB is ignored
                        SpriteSize::Sz8x16 => (15i32, sprite.tile() & 0xfe),
                    };
                    let sprite_y = if sprite.y_flip() {
                        height - sprite_y
                    } else {
                        sprite_y
                    };
                    let sprite_x = if sprite.x_flip() {
                        7 - sprite_x
                    } else {
                        sprite_x
                    };
                    // Sprites always use TileSet 1
                    let pix = self.pix_color(tile, sprite_x as u8, sprite_y as u8, TileSet::Set1);
                    // White color (0) pre-palette denotes a
                    // transparent pixel
                    if pix != Color::White {
                        // Pixel is not transparent, compute the color
                        // and return that
                        let palette = match sprite.palette() {
                            SpritePalette::Obp0 => self.regs.obp0,
                            SpritePalette::Obp1 => self.regs.obp1,
                        };
                        return palette.transform(pix);
                    }
                },
            }
            i = i + 1;
        }
        bg_col.color
    }

    /// Compute a single pixel of the display
    fn render_pixel(&self, x: u8, y: u8) -> (c: Color)
        requires
            self.wf(),
            y < 144,
        ensures
            c == spec_pixel(self@, x, y),
    {
        let bg_col =
        // Window is always on top of background
        if self.regs.window_enabled && self.in_window(x, y) {
            self.window_color(x, y)
        } else if self.regs.bg_enabled {
            self.background_color(x, y)
        } else {
            // No background or window
            AlphaColor { color: Color::White, opaque: false }
        };
        proof {
            reveal(spec_pixel);
        }
        if self.regs.sprites_enabled {
            self.render_sprite(x, y, bg_col)
        } else {
            bg_col.color
        }
    }

    /// Draw screen line `y`
    pub(super) fn render_line(&mut self, y: u8)
        requires
            old(self).wf(),
            y < 144,
        ensures
            final(self).wf(),
            final(self)@ == (GpuView { frame: spec_render_line(old(self)@, y), ..old(self)@ }),
    {
        let ghost v = self@;
        let base = (y as usize) * SCREEN_WIDTH;
        let mut x: u8 = 0;
        while x < 160
            invariant
                self.wf(),
                y < 144,
                base == y * 160,
                x <= 160,
                self.regs == v.regs,
                self.oam@ == v.oam,
                self.vram@ == v.vram,
                self.frame@.len() == v.frame.len(),
                forall|k: int|
                    0 <= k < v.frame.len() ==> #[trigger] self.frame@[k] == if k / 160 == y as int
                        && k % 160 < x {
                        spec_pixel(v, (k % 160) as u8, y)
                    } else {
                        v.frame[k]
                    },
            decreases 160 - x,
        {
            let c = self.render_pixel(x, y);
            proof {
                lemma_pixel_frame_independent(self@, v, x, y);
            }
            let ghost before = self.frame@;
            self.frame.set(base + x as usize, c);
            proof {
                let k0 = y * 160 + x;
                assert(k0 / 160 == y as int && k0 % 160 == x as int) by (nonlinear_arith)
                    requires
                        k0 == y * 160 + x,
                        x < 160,
                        y < 144,
                ;
                assert forall|k: int| 0 <= k < v.frame.len() implies #[trigger] self.frame@[k] == if k
                    / 160 == y as int && k % 160 < x + 1 {
                    spec_pixel(v, (k % 160) as u8, y)
                } else {
                    v.frame[k]
                } by {
                    if k != k0 {
                        assert(self.frame@[k] == before[k]);
                        if k / 160 == y as int && k % 160 == x as int {
                            assert(k == (k / 160) * 160 + k % 160) by (nonlinear_arith);
                        }
                    }
                }
            }
            x = x + 1;
        }
        assert(self.frame@ =~= spec_render_line(v, y));
    }
}

} // verus!
