//! Game Boy GPU emulation

use vstd::prelude::*;
use crate::gpu::sprite::{Sprite, spec_sprite_flags, spec_with_flags, spec_sprite_new};
use crate::gpu::cache::{cache_matches, spec_line_cache, lemma_cache_depends_on_positions};
use crate::gpu::render::spec_render_line;

pub mod sprite;
pub mod cache;
pub mod render;
pub mod order;
pub mod mirror;
pub mod timing;

verus! {

/// Total line size (including hblank)
pub const HTOTAL: u16 = 456;

/// Beginning of Active period
pub const HACTIVE_ON: u16 = 80;

/// Beginning of HSync period
pub const HSYNC_ON: u16 = 173;

/// Total number of lines (including vblank)
pub const VTOTAL: u8 = 154;

/// Beginning of VSync period
pub const VSYNC_ON: u8 = 144;

/// Width of the screen in pixels
pub const SCREEN_WIDTH: usize = 160;

/// Height of the screen in pixels
pub const SCREEN_HEIGHT: usize = 144;

/// Number of sprites in OAM
pub const OAM_SPRITES: usize = 40;

/// Size of the video RAM in bytes
pub const VRAM_SIZE: usize = 0x2000;

/// All possible color values on the monochrome Game Boy
#[derive(Clone, Copy, PartialEq, Eq, Structural, Debug)]
pub enum Color {
    White,
    LightGrey,
    DarkGrey,
    Black,
}

/// Numeric value of a color (0 to 3)
pub open spec fn color_value(c: Color) -> u8 {
    match c {
        Color::White => 0,
        Color::LightGrey => 1,
        Color::DarkGrey => 2,
        Color::Black => 3,
    }
}

/// The color whose numeric value is `c` (values above 3 give `Black`)
pub open spec fn color_of(c: int) -> Color {
    if c == 0 {
        Color::White
    } else if c == 1 {
        Color::LightGrey
    } else if c == 2 {
        Color::DarkGrey
    } else {
        Color::Black
    }
}

impl Color {
    /// Create a color from a u8 in the range 0...3
    pub fn from_u8(c: u8) -> (r: Color)
        requires
            c < 4,
        ensures
            r == color_of(c as int),
            color_value(r) == c,
    {
        match c {
            0 => Color::White,
            1 => Color::LightGrey,
            2 => Color::DarkGrey,
            _ => Color::Black,
        }
    }

    /// Numeric value of the color
    pub fn value(self) -> (r: u8)
        ensures
            r == color_value(self),
            r < 4,
            color_of(r as int) == self,
    {
        match self {
            Color::White => 0,
            Color::LightGrey => 1,
            Color::DarkGrey => 2,
            Color::Black => 3,
        }
    }
}

/// Current GPU mode
#[derive(Clone, Copy, PartialEq, Eq, Structural, Debug)]
pub enum Mode {
    /// In horizontal blanking
    HBlank,
    /// In vertical blanking
    VBlank,
    /// Accessing sprite memory, Sprite attributes RAM [0xfe00, 0xfe9f]
    /// can't be accessed
    Prelude,
    /// Accessing sprite memory and video memory [0x8000, 0x9fff],
    /// both can't be accessed from CPU
    Active,
}

/// Value of the mode in the STAT register
pub open spec fn mode_value(m: Mode) -> u8 {
    match m {
        Mode::HBlank => 0,
        Mode::VBlank => 1,
        Mode::Prelude => 2,
        Mode::Active => 3,
    }
}

impl Mode {
    /// Value of the mode in the STAT register
    pub fn value(self) -> (r: u8)
        ensures
            r == mode_value(self),
    {
        match self {
            Mode::HBlank => 0,
            Mode::VBlank => 1,
            Mode::Prelude => 2,
            Mode::Active => 3,
        }
    }
}

/// State of the LCD interrupt (as controlled by the STAT
/// register).
///
/// The interrupt source is configurable (LYC, prelude, vblank,
/// hblank). All those interrupt sources are ORed together and an
/// interrupt is only signaled on a rising edge of the ORed signal.
///
/// So for instance if the LYC and HBlank interrupts are enabled and
/// we're at the matched line, the interrupt will trigger at the
/// beginning of the line (LY == LYC) but not at the beginning of
/// hblank (since the IT line is already high).
///
/// However, if the LYC register value is changed in the middle of the
/// line and the LY == LYC is no longer true, the IT signal will go
/// low and can be triggered again in the same line.
#[derive(Clone, Copy, PartialEq, Eq, Structural, Debug)]
pub enum LcdItStatus {
    /// Interrupt is inactive
    Inactive,
    /// Interrupt event occured
    Triggered,
    /// Interrupt event occured and has been acknowledged. It will be
    /// rearmed when the signal goes low.
    Acked,
}

/// Palette description: each of the 4 colors can be mapped to an
/// other one independently of the others. `c0` is the output for
/// color value 0, `c1` for 1 and so on.
#[derive(Clone, Copy, PartialEq, Eq, Structural, Debug)]
pub struct Palette {
    pub c0: Color,
    pub c1: Color,
    pub c2: Color,
    pub c3: Color,
}

/// Palette described by register value `r`: 0bC3C2C1C0 where CX is the
/// output value for a given value X.
pub open spec fn spec_palette(r: u8) -> Palette {
    Palette {
        c0: color_of((r % 4) as int),
        c1: color_of(((r / 4) % 4) as int),
        c2: color_of(((r / 16) % 4) as int),
        c3: color_of(((r / 64) % 4) as int),
    }
}

/// Register value describing palette `p`
pub open spec fn spec_palette_reg(p: Palette) -> u8 {
    (color_value(p.c0) + 4 * color_value(p.c1) + 16 * color_value(p.c2) + 64 * color_value(
        p.c3,
    )) as u8
}

/// Output color of palette `p` for color `c`
pub open spec fn spec_transform(p: Palette, c: Color) -> Color {
    match c {
        Color::White => p.c0,
        Color::LightGrey => p.c1,
        Color::DarkGrey => p.c2,
        Color::Black => p.c3,
    }
}

impl Palette {
    /// Build a palette from a register value.
    ///
    /// Register value is 0bC3C2C1C0 where CX is the output
    /// value for a given value X. So for instance
    /// 0b00_01_10_11 is a palette that reverses the colors.
    pub fn from_reg(r: u8) -> (p: Palette)
        ensures
            p == spec_palette(r),
    {
        Palette {
            c0: Color::from_u8(r % 4),
            c1: Color::from_u8((r / 4) % 4),
            c2: Color::from_u8((r / 16) % 4),
            c3: Color::from_u8((r / 64) % 4),
        }
    }

    /// Convert palette into register value
    pub fn into_reg(&self) -> (r: u8)
        ensures
            r == spec_palette_reg(*self),
    {
        self.c0.value() + 4 * self.c1.value() + 16 * self.c2.value() + 64 * self.c3.value()
    }

    /// Transform color `c` through the palette
    pub fn transform(&self, c: Color) -> (r: Color)
        ensures
            r == spec_transform(*self, c),
    {
        match c {
            Color::White => self.c0,
            Color::LightGrey => self.c1,
            Color::DarkGrey => self.c2,
            Color::Black => self.c3,
        }
    }
}

/// Converting a register value into a palette and back gives the
/// same value.
pub proof fn lemma_palette_roundtrip(r: u8)
    ensures
        spec_palette_reg(spec_palette(r)) == r,
{
    let p = spec_palette(r);
    assert(color_value(p.c0) == r % 4);
    assert(color_value(p.c1) == (r / 4) % 4);
    assert(color_value(p.c2) == (r / 16) % 4);
    assert(color_value(p.c3) == (r / 64) % 4);
    assert((r % 4) + 4 * ((r / 4) % 4) + 16 * ((r / 16) % 4) + 64 * ((r / 64) % 4) == r)
        by (bit_vector);
}

/// Converting a palette into a register value and back gives the
/// same palette.
pub proof fn lemma_palette_reg_roundtrip(p: Palette)
    ensures
        spec_palette(spec_palette_reg(p)) == p,
{
}

/// Struct used to describe colors that can be transparent
#[derive(Clone, Copy, PartialEq, Eq, Structural, Debug)]
pub struct AlphaColor {
    /// Pixel color
    pub color: Color,
    /// If `true` the color is fully opaque, otherwise fully
    /// transparent.
    pub opaque: bool,
}

/// There are two tile maps available on the GameBoy. Each map is
/// 32x32x8bits large and contain index values into the tile set for
/// each map.
#[derive(Clone, Copy, PartialEq, Eq, Structural, Debug)]
pub enum TileMap {
    /// Low map at addresse range [0x9800, 0x9bff]
    Low,
    /// High map at addresse range [0x9c00, 0x9fff]
    High,
}

/// VRAM offset of tile map `m`
pub open spec fn spec_map_base(m: TileMap) -> u16 {
    match m {
        TileMap::Low => 0x1800,
        TileMap::High => 0x1c00,
    }
}

impl TileMap {
    /// Return tile map base offset in VRAM
    pub fn base(self) -> (r: u16)
        ensures
            r == spec_map_base(self),
    {
        match self {
            TileMap::Low => 0x1800,
            TileMap::High => 0x1c00,
        }
    }
}

/// There are two overlapping tile sets on the Game Boy. Tile sets are
/// 256x16byte large, entries are indexed into the `TileMap`.
#[derive(Clone, Copy, PartialEq, Eq, Structural, Debug)]
pub enum TileSet {
    /// Tile set #0 in [0x8800, 0x9bff], index is signed [-128, 127]
    Set0,
    /// Tile set #1 in [0x8000, 0x8fff], index is unsigned [0, 255]
    Set1,
}

/// VRAM offset of `tile` in tile set `s`
pub open spec fn spec_tile_addr(s: TileSet, tile: u8) -> int {
    match s {
        TileSet::Set0 => 0x1000 + (if tile < 128 { tile as int } else { tile - 256 }) * 16,
        TileSet::Set1 => tile * 16,
    }
}

impl TileSet {
    /// Return VRAM offset of `tile` for the tileset.
    pub fn tile_addr(self, tile: u8) -> (r: u16)
        ensures
            r == spec_tile_addr(self, tile),
            0x800 <= spec_tile_addr(self, tile) <= 0x17f0 || spec_tile_addr(self, tile) <= 0xff0,
    {
        match self {
            // For `Set0` `tile` is signed and in the range [-128,
            // 127]. Tile 0 is at offset 0x1000.
            TileSet::Set0 => if tile < 128 {
                0x1000 + (tile as u16) * 16
            } else {
                0x1000 - (256 - tile as u16) * 16
            },
            // `Set1` is unsigned and starts at offset 0x0000
            TileSet::Set1 => (tile as u16) * 16,
        }
    }
}

/// Sprites can be 8x8 pixels or 8x16 pixels (a pair of 8x8
/// tiles). The setting is global for all sprites.
#[derive(Clone, Copy, PartialEq, Eq, Structural, Debug)]
pub enum SpriteSize {
    /// Sprites resolution is 8x8 (i.e. single tile)
    Sz8x8,
    /// Sprites resolution is 8x16 (i.e. two tiles)
    Sz8x16,
}

/// Height of the sprites for size `s`
pub open spec fn spec_height(s: SpriteSize) -> int {
    match s {
        SpriteSize::Sz8x8 => 8,
        SpriteSize::Sz8x16 => 16,
    }
}

impl SpriteSize {
    /// Return the height of sprites depending on the SpriteSize
    /// setting
    pub fn height(self) -> (r: u8)
        ensures
            r == spec_height(self),
    {
        match self {
            SpriteSize::Sz8x8 => 8,
            SpriteSize::Sz8x16 => 16,
        }
    }
}

/// Scalar GPU state: registers, counters and interrupt status
#[derive(Clone, Copy, PartialEq, Eq, Structural, Debug)]
pub struct GpuRegs {
    /// Current line. [0,143] is active video, [144,153] is blanking.
    pub line: u8,
    /// Counter for the horizontal period
    pub htick: u16,
    /// `true` if the LCD is enabled.
    pub enabled: bool,
    /// Which tile map the window uses
    pub window_tile_map: TileMap,
    /// `true` if window display is enabled
    pub window_enabled: bool,
    /// Which tile set Background and Window use
    pub bg_win_tile_set: TileSet,
    /// Which tile map background uses
    pub bg_tile_map: TileMap,
    /// Resolution of the sprites
    pub sprite_size: SpriteSize,
    /// `true` if sprites are displayed
    pub sprites_enabled: bool,
    /// `true` if background display is enabled
    pub bg_enabled: bool,
    /// Background palette
    pub bgp: Palette,
    /// Object palette 0
    pub obp0: Palette,
    /// Object palette 1
    pub obp1: Palette,
    /// Line compare
    pub lyc: u8,
    /// VBlank interrupt status
    pub it_vblank: bool,
    /// LYC match interrupt enable (IT when LY == LYC)
    pub iten_lyc: bool,
    /// Interrupt during prelude (mode == 2)
    pub iten_prelude: bool,
    /// Interrupt during vblank (mode == 1). This is not the same as
    /// `it_vblank` above: it_vblank fires with a higher priority and
    /// is not shared with other interrupt sources like this one.
    pub iten_vblank: bool,
    /// Interrupt during hblank (mode == 0)
    pub iten_hblank: bool,
    /// Lcdc interrupt status
    pub lcd_it_status: LcdItStatus,
    /// Background y position
    pub scy: u8,
    /// Background x position
    pub scx: u8,
    /// Window top-left x position + 7
    pub wx: u8,
    /// Window top-left y position.
    pub wy: u8,
    /// Set when the last line of a frame has been drawn, cleared when
    /// the frame has been taken by the display
    pub frame_ready: bool,
}

/// Abstract GPU state
pub struct GpuView {
    pub regs: GpuRegs,
    /// Object attribute memory
    pub oam: Seq<Sprite>,
    /// Video RAM
    pub vram: Seq<u8>,
    /// Screen pixels, line after line
    pub frame: Seq<Color>,
}

/// GPU state.
pub struct Gpu {
    regs: GpuRegs,
    /// Object attritube memory
    oam: Vec<Sprite>,
    /// Video Ram
    vram: Vec<u8>,
    /// Sprites displayed on each line. Contains an index into OAM or
    /// None. There can't be more than 10 sprites displayed on each
    /// line, the entries of line `y` are at `y * 10 .. y * 10 + 10`.
    line_cache: Vec<Option<u8>>,
    /// Screen pixels, line after line
    frame: Vec<Color>,
}

/// GPU mode for the current position of the beam
pub open spec fn spec_mode(r: GpuRegs) -> Mode {
    if r.line < VSYNC_ON {
        if r.htick < HACTIVE_ON {
            Mode::Prelude
        } else if r.htick < HSYNC_ON {
            Mode::Active
        } else {
            Mode::HBlank
        }
    } else {
        Mode::VBlank
    }
}

/// Value of the LCDC register
pub open spec fn spec_lcdc(r: GpuRegs) -> u8 {
    ((if r.enabled { 0x80int } else { 0 }) + (if r.window_tile_map == TileMap::High {
        0x40int
    } else {
        0
    }) + (if r.window_enabled { 0x20int } else { 0 }) + (if r.bg_win_tile_set == TileSet::Set1 {
        0x10int
    } else {
        0
    }) + (if r.bg_tile_map == TileMap::High { 0x08int } else { 0 }) + (if r.sprite_size
        == SpriteSize::Sz8x16 { 0x04int } else { 0 }) + (if r.sprites_enabled {
        0x02int
    } else {
        0
    }) + (if r.bg_enabled { 0x01int } else { 0 })) as u8
}

/// Registers after a write of `v` into LCDC. Disabling the LCD moves
/// the beam back to the first pixel.
pub open spec fn spec_set_lcdc(r: GpuRegs, v: u8) -> GpuRegs {
    let enabled = v & 0x80 != 0;
    GpuRegs {
        enabled: enabled,
        window_tile_map: if v & 0x40 != 0 {
            TileMap::High
        } else {
            TileMap::Low
        },
        window_enabled: v & 0x20 != 0,
        bg_win_tile_set: if v & 0x10 != 0 {
            TileSet::Set1
        } else {
            TileSet::Set0
        },
        bg_tile_map: if v & 0x08 != 0 {
            TileMap::High
        } else {
            TileMap::Low
        },
        sprite_size: if v & 0x04 != 0 {
            SpriteSize::Sz8x16
        } else {
            SpriteSize::Sz8x8
        },
        sprites_enabled: v & 0x02 != 0,
        bg_enabled: v & 0x01 != 0,
        line: if enabled {
            r.line
        } else {
            0
        },
        htick: if enabled {
            r.htick
        } else {
            0
        },
        ..r
    }
}

/// Value of the STAT register. The mode reads as 0 when the LCD is
/// disabled.
pub open spec fn spec_stat(r: GpuRegs) -> u8 {
    ((if r.iten_lyc { 0x40int } else { 0 }) + (if r.iten_prelude { 0x20int } else { 0 }) + (
    if r.iten_vblank { 0x10int } else { 0 }) + (if r.iten_hblank { 0x08int } else { 0 }) + (if r.lyc
        == r.line { 0x04int } else { 0 }) + (if r.enabled {
        mode_value(spec_mode(r)) as int
    } else {
        0
    })) as u8
}

/// Level of the LCD interrupt line: `true` if one of the interrupt
/// conditions is met and is enabled
pub open spec fn spec_lcd_level(r: GpuRegs) -> bool {
    let mode = spec_mode(r);
    (r.iten_lyc && r.lyc == r.line) || (r.iten_prelude && mode == Mode::Prelude) || (r.iten_vblank
        && mode == Mode::VBlank) || (r.iten_hblank && mode == Mode::HBlank)
}

/// LCD interrupt state after looking at the interrupt line: a rising
/// edge triggers a new interrupt, an acknowledged interrupt is rearmed
/// when the line goes low.
pub open spec fn spec_update_lcd_it(r: GpuRegs) -> GpuRegs {
    if spec_lcd_level(r) {
        if r.lcd_it_status == LcdItStatus::Inactive {
            GpuRegs { lcd_it_status: LcdItStatus::Triggered, ..r }
        } else {
            r
        }
    } else {
        if r.lcd_it_status == LcdItStatus::Acked {
            GpuRegs { lcd_it_status: LcdItStatus::Inactive, ..r }
        } else {
            r
        }
    }
}

/// Registers after a write of `v` into STAT (the low bits are read
/// only)
pub open spec fn spec_set_stat(r: GpuRegs, v: u8) -> GpuRegs {
    spec_update_lcd_it(
        GpuRegs {
            iten_lyc: v & 0x40 != 0,
            iten_prelude: v & 0x20 != 0,
            iten_vblank: v & 0x10 != 0,
            iten_hblank: v & 0x08 != 0,
            ..r
        },
    )
}

/// Acknowledgement of a triggered LCD interrupt
pub open spec fn spec_ack_it_lcd(r: GpuRegs) -> GpuRegs {
    if r.lcd_it_status == LcdItStatus::Triggered {
        GpuRegs { lcd_it_status: LcdItStatus::Acked, ..r }
    } else {
        r
    }
}

/// LCD interrupt forced to `set`
pub open spec fn spec_force_it_lcd(r: GpuRegs, set: bool) -> GpuRegs {
    if set {
        GpuRegs { lcd_it_status: LcdItStatus::Triggered, ..r }
    } else {
        spec_ack_it_lcd(r)
    }
}

/// Registers after one tick of the beam counters
pub open spec fn spec_step_timing(r: GpuRegs) -> GpuRegs {
    let htick = if r.htick + 1 >= HTOTAL {
        0
    } else {
        (r.htick + 1) as u16
    };
    if htick == HSYNC_ON {
        let line = if r.line + 1 >= VTOTAL {
            0
        } else {
            (r.line + 1) as u8
        };
        if line == VSYNC_ON {
            GpuRegs { htick: htick, line: line, it_vblank: true, frame_ready: true, ..r }
        } else {
            GpuRegs { htick: htick, line: line, ..r }
        }
    } else {
        GpuRegs { htick: htick, ..r }
    }
}

/// Cycle at which the first pixel of `line` is output
pub open spec fn spec_line_start(line: u8) -> u16 {
    if line == 0 {
        160
    } else {
        48
    }
}

/// Byte `addr` of OAM
pub open spec fn spec_oam_byte(oam: Seq<Sprite>, addr: u16) -> u8 {
    let s = oam[(addr / 4) as int];
    if addr % 4 == 0 {
        s.y
    } else if addr % 4 == 1 {
        s.x
    } else if addr % 4 == 2 {
        s.tile
    } else {
        spec_sprite_flags(s)
    }
}

/// OAM after writing `val` at `addr`
pub open spec fn spec_set_oam(oam: Seq<Sprite>, addr: u16, val: u8) -> Seq<Sprite> {
    let s = oam[(addr / 4) as int];
    oam.update(
        (addr / 4) as int,
        if addr % 4 == 0 {
            Sprite { y: val, ..s }
        } else if addr % 4 == 1 {
            Sprite { x: val, ..s }
        } else if addr % 4 == 2 {
            Sprite { tile: val, ..s }
        } else {
            spec_with_flags(s, val)
        },
    )
}

/// Registers of a freshly created GPU
pub open spec fn spec_initial_regs() -> GpuRegs {
    GpuRegs {
        line: 0,
        htick: 0,
        enabled: false,
        window_tile_map: TileMap::Low,
        window_enabled: false,
        bg_win_tile_set: TileSet::Set0,
        bg_tile_map: TileMap::Low,
        sprite_size: SpriteSize::Sz8x8,
        sprites_enabled: false,
        bg_enabled: false,
        bgp: spec_palette(0xff),
        obp0: spec_palette(0xff),
        obp1: spec_palette(0xff),
        lyc: 0,
        it_vblank: false,
        iten_lyc: false,
        iten_prelude: false,
        iten_vblank: false,
        iten_hblank: false,
        lcd_it_status: LcdItStatus::Inactive,
        scy: 0,
        scx: 0,
        wx: 0,
        wy: 0,
        frame_ready: false,
    }
}

impl Gpu {
    /// Abstract state of the GPU
    pub closed spec fn view(&self) -> GpuView {
        GpuView { regs: self.regs, oam: self.oam@, vram: self.vram@, frame: self.frame@ }
    }

    /// Internal consistency: memory sizes and a line cache that
    /// matches the sprites
    pub closed spec fn wf(&self) -> bool {
        &&& self.oam@.len() == OAM_SPRITES
        &&& self.vram@.len() == VRAM_SIZE
        &&& self.frame@.len() == SCREEN_WIDTH * SCREEN_HEIGHT
        &&& self.regs.htick < HTOTAL
        &&& self.regs.line < VTOTAL
        &&& cache_matches(self.line_cache@, spec_line_cache(self.oam@, self.regs.sprite_size))
    }

    /// Return current GPU mode
    pub fn mode(&self) -> (m: Mode)
        ensures
            m == spec_mode(self@.regs),
    {
        if self.regs.line < VSYNC_ON {
            if self.regs.htick < HACTIVE_ON {
                Mode::Prelude
            } else if self.regs.htick < HSYNC_ON {
                Mode::Active
            } else {
                Mode::HBlank
            }
        } else {
            Mode::VBlank
        }
    }

    /// Generate value of lcdc register
    pub fn lcdc(&self) -> (r: u8)
        ensures
            r == spec_lcdc(self@.regs),
    {
        let mut r: u8 = 0;
        if self.regs.enabled {
            r = r + 0x80;
        }
        if self.regs.window_tile_map == TileMap::High {
            r = r + 0x40;
        }
        if self.regs.window_enabled {
            r = r + 0x20;
        }
        if self.regs.bg_win_tile_set == TileSet::Set1 {
            r = r + 0x10;
        }
        if self.regs.bg_tile_map == TileMap::High {
            r = r + 0x08;
        }
        if self.regs.sprite_size == SpriteSize::Sz8x16 {
            r = r + 0x04;
        }
        if self.regs.sprites_enabled {
            r = r + 0x02;
        }
        if self.regs.bg_enabled {
            r = r + 0x01;
        }
        r
    }

    /// Return value of the STAT register
    pub fn stat(&self) -> (r: u8)
        ensures
            r == spec_stat(self@.regs),
    {
        let mut r: u8 = 0;
        if self.regs.iten_lyc {
            r = r + 0x40;
        }
        if self.regs.iten_prelude {
            r = r + 0x20;
        }
        if self.regs.iten_vblank {
            r = r + 0x10;
        }
        if self.regs.iten_hblank {
            r = r + 0x08;
        }
        if self.regs.lyc == self.regs.line {
            r = r + 0x04;
        }
        // Apparently mode is 0 when disabled
        if self.regs.enabled {
            r = r + self.mode().value();
        }
        r
    }

    /// Return the current level of the LCD interrupt (`true` if one
    /// of the interrupt conditions is met and is enabled).
    fn lcd_interrupt_level(&self) -> (r: bool)
        ensures
            r == spec_lcd_level(self@.regs),
    {
        let mode = self.mode();
        (self.regs.iten_lyc && self.regs.lyc == self.regs.line) || (self.regs.iten_prelude && mode
            == Mode::Prelude) || (self.regs.iten_vblank && mode == Mode::VBlank) || (
        self.regs.iten_hblank && mode == Mode::HBlank)
    }

    /// Look for a transition in the LCD interrupt to see if we should
    /// trigger a new one (or rearm it)
    fn update_ldc_interrupt(&mut self)
        requires
            old(self).wf(),
        ensures
            final(self).wf(),
            final(self)@ == (GpuView { regs: spec_update_lcd_it(old(self)@.regs), ..old(self)@ }),
    {
        let level = self.lcd_interrupt_level();
        if level {
            if self.regs.lcd_it_status == LcdItStatus::Inactive {
                // Rising edge of IT line, we trigger a new interrupt.
                self.regs.lcd_it_status = LcdItStatus::Triggered;
            }
        } else {
            // If the interrupt has not been acked yet it's shadowed
            // and won't go down until acked.
            if self.regs.lcd_it_status == LcdItStatus::Acked {
                // IT line returned to low, it could trigger again
                // within the same line.
                self.regs.lcd_it_status = LcdItStatus::Inactive;
            }
        }
    }

    /// Handle reconfiguration through STAT register
    pub fn set_stat(&mut self, stat: u8)
        requires
            old(self).wf(),
        ensures
            final(self).wf(),
            final(self)@ == (GpuView { regs: spec_set_stat(old(self)@.regs, stat), ..old(self)@ }),
    {
        self.regs.iten_lyc = stat & 0x40 != 0;
        self.regs.iten_prelude = stat & 0x20 != 0;
        self.regs.iten_vblank = stat & 0x10 != 0;
        self.regs.iten_hblank = stat & 0x08 != 0;
        // Other fields are R/O
        // Update interrupt status with new stat params
        self.update_ldc_interrupt();
    }

    /// Return value of SCY register
    pub fn scy(&self) -> (r: u8)
        ensures
            r == self@.regs.scy,
    {
        self.regs.scy
    }

    /// Reconfiguration of SCY register
    pub fn set_scy(&mut self, scy: u8)
        requires
            old(self).wf(),
        ensures
            final(self).wf(),
            final(self)@ == (GpuView { regs: GpuRegs { scy: scy, ..old(self)@.regs }, ..old(self)@ }),
    {
        self.regs.scy = scy;
    }

    /// Return value of SCX register
    pub fn scx(&self) -> (r: u8)
        ensures
            r == self@.regs.scx,
    {
        self.regs.scx
    }

    /// Reconfiguration of SCX register
    pub fn set_scx(&mut self, scx: u8)
        requires
            old(self).wf(),
        ensures
            final(self).wf(),
            final(self)@ == (GpuView { regs: GpuRegs { scx: scx, ..old(self)@.regs }, ..old(self)@ }),
    {
        self.regs.scx = scx;
    }

    /// Handle reconfiguration of the lyc register
    pub fn set_lyc(&mut self, lyc: u8)
        requires
            old(self).wf(),
        ensures
            final(self).wf(),
            final(self)@ == (GpuView { regs: GpuRegs { lyc: lyc, ..old(self)@.regs }, ..old(self)@ }),
    {
        self.regs.lyc = lyc;
    }

    /// Return value of the lyc register
    pub fn lyc(&self) -> (r: u8)
        ensures
            r == self@.regs.lyc,
    {
        self.regs.lyc
    }

    /// Handle reconfiguration of the background palette
    pub fn set_bgp(&mut self, bgp: u8)
        requires
            old(self).wf(),
        ensures
            final(self).wf(),
            final(self)@ == (GpuView {
                regs: GpuRegs { bgp: spec_palette(bgp), ..old(self)@.regs },
                ..old(self)@
            }),
    {
        self.regs.bgp = Palette::from_reg(bgp);
    }

    /// Return value of the background palette register
    pub fn bgp(&self) -> (r: u8)
        ensures
            r == spec_palette_reg(self@.regs.bgp),
    {
        self.regs.bgp.into_reg()
    }

    /// Handle reconfiguration of the sprite palette 0
    pub fn set_obp0(&mut self, obp0: u8)
        requires
            old(self).wf(),
        ensures
            final(self).wf(),
            final(self)@ == (GpuView {
                regs: GpuRegs { obp0: spec_palette(obp0), ..old(self)@.regs },
                ..old(self)@
            }),
    {
        self.regs.obp0 = Palette::from_reg(obp0);
    }

    /// Return value of the sprite palette 0 register
    pub fn obp0(&self) -> (r: u8)
        ensures
            r == spec_palette_reg(self@.regs.obp0),
    {
        self.regs.obp0.into_reg()
    }

    /// Handle reconfiguration of the sprite palette 1
    pub fn set_obp1(&mut self, obp1: u8)
        requires
            old(self).wf(),
        ensures
            final(self).wf(),
            final(self)@ == (GpuView {
                regs: GpuRegs { obp1: spec_palette(obp1), ..old(self)@.regs },
                ..old(self)@
            }),
    {
        self.regs.obp1 = Palette::from_reg(obp1);
    }

    /// Return value of the sprite palette 1 register
    pub fn obp1(&self) -> (r: u8)
        ensures
            r == spec_palette_reg(self@.regs.obp1),
    {
        self.regs.obp1.into_reg()
    }

    /// Return number of line currently being drawn
    pub fn line(&self) -> (r: u8)
        ensures
            r == self@.regs.line,
    {
        self.regs.line
    }

    /// Return value of wy register
    pub fn wy(&self) -> (r: u8)
        ensures
            r == self@.regs.wy,
    {
        self.regs.wy
    }

    /// Handle reconfiguration of wy register
    pub fn set_wy(&mut self, wy: u8)
        requires
            old(self).wf(),
        ensures
            final(self).wf(),
            final(self)@ == (GpuView { regs: GpuRegs { wy: wy, ..old(self)@.regs }, ..old(self)@ }),
    {
        self.regs.wy = wy;
    }

    /// Return value of wx register
    pub fn wx(&self) -> (r: u8)
        ensures
            r == self@.regs.wx,
    {
        self.regs.wx
    }

    /// Handle reconfiguration of wx register
    pub fn set_wx(&mut self, wx: u8)
        requires
            old(self).wf(),
        ensures
            final(self).wf(),
            final(self)@ == (GpuView { regs: GpuRegs { wx: wx, ..old(self)@.regs }, ..old(self)@ }),
    {
        self.regs.wx = wx;
    }

    /// Get byte from VRAM
    pub fn vram(&self, addr: u16) -> (r: u8)
        requires
            self.wf(),
            addr < VRAM_SIZE,
        ensures
            r == self@.vram[addr as int],
    {
        self.vram[addr as usize]
    }

    /// Set byte in VRAM
    pub fn set_vram(&mut self, addr: u16, val: u8)
        requires
            old(self).wf(),
            addr < VRAM_SIZE,
        ensures
            final(self).wf(),
            final(self)@ == (GpuView {
                vram: old(self)@.vram.update(addr as int, val),
                ..old(self)@
            }),
    {
        self.vram.set(addr as usize, val);
    }

    /// Get byte from OAM
    pub fn oam(&self, addr: u16) -> (r: u8)
        requires
            self.wf(),
            addr < 0xa0,
        ensures
            r == spec_oam_byte(self@.oam, addr),
    {
        // Each sprite takes 4 byte in OAM
        let index = (addr / 4) as usize;
        let attribute = addr % 4;
        let sprite = &self.oam[index];
        if attribute == 0 {
            sprite.y_pos()
        } else if attribute == 1 {
            sprite.x_pos()
        } else if attribute == 2 {
            sprite.tile()
        } else {
            sprite.flags()
        }
    }

    /// Return status of VBlank interrupt
    pub fn it_vblank(&self) -> (r: bool)
        ensures
            r == self@.regs.it_vblank,
    {
        self.regs.it_vblank
    }

    /// Acknowledge VBlank interrupt
    pub fn ack_it_vblank(&mut self)
        requires
            old(self).wf(),
        ensures
            final(self).wf(),
            final(self)@ == (GpuView {
                regs: GpuRegs { it_vblank: false, ..old(self)@.regs },
                ..old(self)@
            }),
    {
        self.regs.it_vblank = false;
    }

    /// Force VBlank interrupt state
    pub fn force_it_vblank(&mut self, set: bool)
        requires
            old(self).wf(),
        ensures
            final(self).wf(),
            final(self)@ == (GpuView {
                regs: GpuRegs { it_vblank: set, ..old(self)@.regs },
                ..old(self)@
            }),
    {
        self.regs.it_vblank = set;
    }

    /// Return status of Lcd interrupt
    pub fn it_lcd(&self) -> (r: bool)
        ensures
            r == (self@.regs.lcd_it_status == LcdItStatus::Triggered),
    {
        self.regs.lcd_it_status == LcdItStatus::Triggered
    }

    /// Acknowledge Lcd interrupt
    pub fn ack_it_lcd(&mut self)
        requires
            old(self).wf(),
        ensures
            final(self).wf(),
            final(self)@ == (GpuView { regs: spec_ack_it_lcd(old(self)@.regs), ..old(self)@ }),
    {
        if self.regs.lcd_it_status == LcdItStatus::Triggered {
            self.regs.lcd_it_status = LcdItStatus::Acked;
        }
    }

    /// Force Lcd interrupt state.
    pub fn force_it_lcd(&mut self, set: bool)
        requires
            old(self).wf(),
        ensures
            final(self).wf(),
            final(self)@ == (GpuView { regs: spec_force_it_lcd(old(self)@.regs, set), ..old(self)@ }),
    {
        if set {
            self.regs.lcd_it_status = LcdItStatus::Triggered;
        } else {
            self.ack_it_lcd();
        }
    }

    /// `true` when a complete frame is waiting to be displayed
    pub fn frame_ready(&self) -> (r: bool)
        ensures
            r == self@.regs.frame_ready,
    {
        self.regs.frame_ready
    }

    /// Mark the current frame as displayed
    pub fn ack_frame(&mut self)
        requires
            old(self).wf(),
        ensures
            final(self).wf(),
            final(self)@ == (GpuView {
                regs: GpuRegs { frame_ready: false, ..old(self)@.regs },
                ..old(self)@
            }),
    {
        self.regs.frame_ready = false;
    }

    /// Color of the screen pixel at (`x`, `y`). (0, 0) is top left.
    pub fn pixel(&self, x: u8, y: u8) -> (c: Color)
        requires
            self.wf(),
            x < SCREEN_WIDTH,
            y < SCREEN_HEIGHT,
        ensures
            c == self@.frame[y * 160 + x],
    {
        self.frame[(y as usize) * SCREEN_WIDTH + (x as usize)]
    }

    /// Called when the last line of the active display has been drawn
    fn end_of_frame(&mut self)
        requires
            old(self).wf(),
        ensures
            final(self).wf(),
            final(self)@ == (GpuView {
                regs: GpuRegs { it_vblank: true, frame_ready: true, ..old(self)@.regs },
                ..old(self)@
            }),
    {
        self.regs.it_vblank = true;
        self.regs.frame_ready = true;
    }
}

/// GPU registers after a write of `val` at offset `o` of the IO
/// space (offsets 0x40 to 0x4b but 0x44 and 0x46)
pub open spec fn spec_gpu_write(g: GpuRegs, o: u8, val: u8) -> GpuRegs {
    match o {
        0x40 => spec_set_lcdc(g, val),
        0x41 => spec_set_stat(g, val),
        0x42 => GpuRegs { scy: val, ..g },
        0x43 => GpuRegs { scx: val, ..g },
        0x45 => GpuRegs { lyc: val, ..g },
        0x47 => GpuRegs { bgp: spec_palette(val), ..g },
        0x48 => GpuRegs { obp0: spec_palette(val), ..g },
        0x49 => GpuRegs { obp1: spec_palette(val), ..g },
        0x4a => GpuRegs { wy: val, ..g },
        0x4b => GpuRegs { wx: val, ..g },
        _ => g,
    }
}

impl Gpu {
    /// Write `val` to the register at offset `o` of the IO space
    /// (offsets 0x40 to 0x4b but LY and DMA)
    pub fn write_register(&mut self, o: u8, val: u8)
        requires
            old(self).wf(),
        ensures
            final(self).wf(),
            final(self)@ == (GpuView { regs: spec_gpu_write(old(self)@.regs, o, val), ..old(self)@ }),
    {
        if o == 0x40 {
            self.set_lcdc(val);
        } else if o == 0x41 {
            self.set_stat(val);
        } else {
            let r = self.regs;
            self.regs = if o == 0x42 {
                GpuRegs { scy: val, ..r }
            } else if o == 0x43 {
                GpuRegs { scx: val, ..r }
            } else if o == 0x45 {
                GpuRegs { lyc: val, ..r }
            } else if o == 0x47 {
                GpuRegs { bgp: Palette::from_reg(val), ..r }
            } else if o == 0x48 {
                GpuRegs { obp0: Palette::from_reg(val), ..r }
            } else if o == 0x49 {
                GpuRegs { obp1: Palette::from_reg(val), ..r }
            } else if o == 0x4a {
                GpuRegs { wy: val, ..r }
            } else if o == 0x4b {
                GpuRegs { wx: val, ..r }
            } else {
                r
            };
        }
    }
}

/// Initial state of the GPU: everything disabled, video RAM filled
/// with garbage, blank screen
pub open spec fn spec_initial_gpu() -> GpuView {
    GpuView {
        regs: spec_initial_regs(),
        oam: Seq::new(40, |i: int| spec_sprite_new()),
        vram: Seq::new(0x2000, |i: int| 0xcau8),
        frame: Seq::new(23040, |i: int| Color::White),
    }
}

/// GPU state after one tick of the system clock
pub open spec fn spec_gpu_step(v: GpuView) -> GpuView {
    if !v.regs.enabled {
        v
    } else {
        let r1 = spec_step_timing(v.regs);
        let v1 = GpuView { regs: r1, ..v };
        let v2 = if r1.htick == spec_line_start(r1.line) && r1.line < VSYNC_ON {
            GpuView { frame: spec_render_line(v1, r1.line), ..v1 }
        } else {
            v1
        };
        GpuView { regs: spec_update_lcd_it(v2.regs), ..v2 }
    }
}

impl Gpu {
    /// Create a new Gpu instance.
    pub fn new() -> (g: Gpu)
        ensures
            g.wf(),
            g@ == spec_initial_gpu(),
    {
        let mut oam: Vec<Sprite> = Vec::new();
        while oam.len() < OAM_SPRITES
            invariant
                oam.len() <= OAM_SPRITES,
                forall|i: int| 0 <= i < oam.len() ==> #[trigger] oam@[i] == spec_sprite_new(),
            decreases OAM_SPRITES - oam.len(),
        {
            oam.push(Sprite::new());
        }
        let mut vram: Vec<u8> = Vec::new();
        while vram.len() < VRAM_SIZE
            invariant
                vram.len() <= VRAM_SIZE,
                forall|i: int| 0 <= i < vram.len() ==> #[trigger] vram@[i] == 0xca,
            decreases VRAM_SIZE - vram.len(),
        {
            vram.push(0xca);
        }
        let mut frame: Vec<Color> = Vec::new();
        while frame.len() < SCREEN_WIDTH * SCREEN_HEIGHT
            invariant
                frame.len() <= SCREEN_WIDTH * SCREEN_HEIGHT,
                forall|i: int| 0 <= i < frame.len() ==> #[trigger] frame@[i] == Color::White,
            decreases SCREEN_WIDTH * SCREEN_HEIGHT - frame.len(),
        {
            frame.push(Color::White);
        }
        let regs = GpuRegs {
            line: 0,
            htick: 0,
            enabled: false,
            window_tile_map: TileMap::Low,
            window_enabled: false,
            bg_win_tile_set: TileSet::Set0,
            bg_tile_map: TileMap::Low,
            sprite_size: SpriteSize::Sz8x8,
            sprites_enabled: false,
            bg_enabled: false,
            bgp: Palette::from_reg(0xff),
            obp0: Palette::from_reg(0xff),
            obp1: Palette::from_reg(0xff),
            lyc: 0x00,
            it_vblank: false,
            iten_lyc: false,
            iten_prelude: false,
            iten_vblank: false,
            iten_hblank: false,
            lcd_it_status: LcdItStatus::Inactive,
            scy: 0,
            scx: 0,
            wx: 0,
            wy: 0,
            frame_ready: false,
        };
        let mut gpu = Gpu { regs, oam, vram, line_cache: Vec::new(), frame };
        gpu.rebuild_line_cache();
        assert(gpu@.oam =~= spec_initial_gpu().oam);
        assert(gpu@.vram =~= spec_initial_gpu().vram);
        assert(gpu@.frame =~= spec_initial_gpu().frame);
        gpu
    }

    /// Called at each tick of the system clock. Move the emulated
    /// state one step forward.
    pub fn step(&mut self)
        requires
            old(self).wf(),
        ensures
            final(self).wf(),
            final(self)@ == spec_gpu_step(old(self)@),
    {
        if !self.regs.enabled {
            return ;
        }
        let ghost v0 = self@;
        self.advance_beam();
        let ghost v1 = self@;
        assert(v1 == GpuView { regs: spec_step_timing(v0.regs), ..v0 });
        // Compute at which cycle the first pixel will actually be
        // output on the screen. Using 48 for the first line messes up
        // The Legend of Zelda's intro.
        let line_start: u16 = if self.regs.line == 0 {
            160
        } else {
            48
        };
        if self.regs.htick == line_start && self.regs.line < VSYNC_ON {
            // It's time to draw the current line
            let y = self.regs.line;
            self.render_line(y);
        }
        let ghost v2 = self@;
        assert(v2 == (if v1.regs.htick == spec_line_start(v1.regs.line) && v1.regs.line < VSYNC_ON {
            GpuView { frame: spec_render_line(v1, v1.regs.line), ..v1 }
        } else {
            v1
        }));
        self.update_ldc_interrupt();
    }

    /// Move the beam one pixel forward
    fn advance_beam(&mut self)
        requires
            old(self).wf(),
        ensures
            final(self).wf(),
            final(self)@ == (GpuView { regs: spec_step_timing(old(self)@.regs), ..old(self)@ }),
    {
        let htick = if self.regs.htick + 1 == HTOTAL {
            0
        } else {
            self.regs.htick + 1
        };
        if htick == HSYNC_ON {
            // Entering horizontal blanking
            let line = if self.regs.line + 1 == VTOTAL {
                0
            } else {
                self.regs.line + 1
            };
            self.regs = GpuRegs { htick, line, ..self.regs };
            if line == VSYNC_ON {
                // We're entering vertical blanking, we're done drawing the
                // current frame
                self.end_of_frame();
            }
        } else {
            self.regs = GpuRegs { htick, ..self.regs };
        }
    }

    /// Handle reconfig through LCDC register
    pub fn set_lcdc(&mut self, lcdc: u8)
        requires
            old(self).wf(),
        ensures
            final(self).wf(),
            final(self)@ == (GpuView { regs: spec_set_lcdc(old(self)@.regs, lcdc), ..old(self)@ }),
    {
        let enabled = lcdc & 0x80 != 0;
        let window_tile_map = if lcdc & 0x40 != 0 {
            TileMap::High
        } else {
            TileMap::Low
        };
        let bg_win_tile_set = if lcdc & 0x10 != 0 {
            TileSet::Set1
        } else {
            TileSet::Set0
        };
        let bg_tile_map = if lcdc & 0x08 != 0 {
            TileMap::High
        } else {
            TileMap::Low
        };
        let new_sprite_size = if lcdc & 0x04 != 0 {
            SpriteSize::Sz8x16
        } else {
            SpriteSize::Sz8x8
        };
        let old_sprite_size = self.regs.sprite_size;
        // When disabled, reset to the first pixel to start back here
        // once we're re-enabled.
        let (line, htick) = if enabled {
            (self.regs.line, self.regs.htick)
        } else {
            (0, 0)
        };
        self.regs = GpuRegs {
            enabled,
            window_tile_map,
            window_enabled: lcdc & 0x20 != 0,
            bg_win_tile_set,
            bg_tile_map,
            sprite_size: new_sprite_size,
            sprites_enabled: lcdc & 0x02 != 0,
            bg_enabled: lcdc & 0x01 != 0,
            line,
            htick,
            ..self.regs
        };
        if new_sprite_size != old_sprite_size {
            self.rebuild_line_cache();
        }
    }

    /// Set byte in OAM
    pub fn set_oam(&mut self, addr: u16, val: u8)
        requires
            old(self).wf(),
            addr < 0xa0,
        ensures
            final(self).wf(),
            final(self)@ == (GpuView { oam: spec_set_oam(old(self)@.oam, addr, val), ..old(self)@ }),
    {
        // Each sprite takes 4 byte in OAM
        let index = (addr / 4) as usize;
        let attribute = addr % 4;
        let mut sprite = self.oam[index];
        let update_cache = if attribute == 0 {
            if sprite.y_pos() != val {
                sprite.set_y_pos(val);
                true
            } else {
                false
            }
        } else if attribute == 1 {
            if sprite.x_pos() != val {
                sprite.set_x_pos(val);
                true
            } else {
                false
            }
        } else if attribute == 2 {
            sprite.set_tile(val);
            false
        } else {
            sprite.set_flags(val);
            false
        };
        let ghost old_oam = self.oam@;
        self.oam.set(index, sprite);
        assert(self.oam@ =~= spec_set_oam(old_oam, addr, val));
        // We need to invalidate the cache only if the sprite location
        // has changed
        if update_cache {
            self.rebuild_line_cache();
        } else {
            proof {
                reveal(spec_line_cache);
                lemma_cache_depends_on_positions(old_oam, self.oam@, self.regs.sprite_size, 40);
            }
        }
    }
}

/// A consistent GPU holds its 40 sprites, the whole video RAM and a
/// full screen.
pub proof fn lemma_gpu_sizes(g: &Gpu)
    requires
        g.wf(),
    ensures
        g@.oam.len() == OAM_SPRITES,
        g@.vram.len() == VRAM_SIZE,
        g@.frame.len() == SCREEN_WIDTH * SCREEN_HEIGHT,
{
}

/// Reading an OAM byte after writing it gives the written value (only
/// the bits 7 to 4 of a flags byte exist); the other OAM bytes keep
/// their values.
pub proof fn lemma_oam_read_after_write(oam: Seq<Sprite>, addr: u16, val: u8, a: u16)
    requires
        oam.len() == OAM_SPRITES,
        addr < 0xa0,
        a < 0xa0,
    ensures
        spec_oam_byte(spec_set_oam(oam, addr, val), addr) == (if addr % 4 == 3 {
            val & 0xf0
        } else {
            val
        }),
        a != addr ==> spec_oam_byte(spec_set_oam(oam, addr, val), a) == spec_oam_byte(oam, a),
{
    crate::gpu::sprite::lemma_flags_roundtrip(oam[(addr / 4) as int], val);
}

impl Gpu {
    /// Sprites displayed on line `y`, by OAM index: from left to right,
    /// then free slots
    pub closed spec fn line_sprites(&self, y: int) -> Seq<Option<u8>> {
        self.line_cache@.subrange(y * 10, y * 10 + 10)
    }
}

/// In a consistent GPU (after any OAM write or LCDC change), at most
/// 10 sprites are displayed on a line: those of the line cache of its
/// sprites, which are the first 10 in OAM order covering the line,
/// whatever their positions or priorities.
pub proof fn lemma_line_sprites(g: &Gpu, y: int, idx: int)
    requires
        g.wf(),
        0 <= y < 144,
        0 <= idx < 40,
    ensures
        g.line_sprites(y) == spec_line_cache(g@.oam, g@.regs.sprite_size)[y],
        g.line_sprites(y).len() == 10,
        g.line_sprites(y).contains(Some(idx as u8)) <==> crate::gpu::cache::covers(
            g@.oam[idx],
            g@.regs.sprite_size,
            y,
        ) && crate::gpu::cache::covering_before(g@.oam, g@.regs.sprite_size, y, idx as nat) < 10,
{
    reveal(cache_matches);
    reveal(spec_line_cache);
    let lines = spec_line_cache(g@.oam, g@.regs.sprite_size);
    crate::gpu::cache::lemma_cache_indices_bounded(g@.oam, g@.regs.sprite_size, 40);
    assert(lines[y].len() == 10);
    assert(g.line_sprites(y) =~= lines[y]) by {
        assert forall|i: int| 0 <= i < 10 implies #[trigger] g.line_sprites(y)[i] == lines[y][i] by {
            assert(g.line_cache@[y * 10 + i] == lines[y][i]);
        }
    }
    crate::gpu::cache::lemma_first_ten_sprites(g@.oam, g@.regs.sprite_size, y, idx);
}

/// The interrupt enable bits of STAT (6 to 3) read back what was
/// written; the low bits (coincidence flag and mode) are read only, so
/// writing them has no effect.
pub proof fn lemma_stat_readback(r: GpuRegs, v: u8)
    ensures
        spec_stat(spec_set_stat(r, v)) & 0x78 == v & 0x78,
        spec_set_stat(r, v) == spec_set_stat(r, v & 0xf8),
{
    let r2 = spec_set_stat(r, v);
    let st = spec_stat(r2);
    let lo: u8 = ((if r2.lyc == r2.line { 0x04int } else { 0 }) + (if r2.enabled {
        mode_value(spec_mode(r2)) as int
    } else {
        0
    })) as u8;
    assert(lo < 8);
    assert(st == (if v & 0x40 != 0 { 64u8 } else { 0u8 }) + (if v & 0x20 != 0 { 32u8 } else { 0u8 })
        + (if v & 0x10 != 0 { 16u8 } else { 0u8 }) + (if v & 0x08 != 0 { 8u8 } else { 0u8 }) + lo);
    assert(st & 0x78 == v & 0x78) by (bit_vector)
        requires
            st == (if v & 0x40 != 0 { 64u8 } else { 0u8 }) + (if v & 0x20 != 0 { 32u8 } else { 0u8 })
                + (if v & 0x10 != 0 { 16u8 } else { 0u8 }) + (if v & 0x08 != 0 { 8u8 } else { 0u8 })
                + lo,
            lo < 8,
    ;
    assert((v & 0xf8) & 0x40 == v & 0x40 && (v & 0xf8) & 0x20 == v & 0x20 && (v & 0xf8) & 0x10 == v
        & 0x10 && (v & 0xf8) & 0x08 == v & 0x08) by (bit_vector);
}

} // verus!
