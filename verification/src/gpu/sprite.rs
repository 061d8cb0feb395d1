//! Game Boy GPU Sprite emulation

use vstd::prelude::*;

verus! {

/// Sprites can use two palettes
#[derive(Clone, Copy, PartialEq, Eq, Structural, Debug)]
pub enum Palette {
    /// Pallette OBP0
    Obp0,
    /// Pallette OBP1
    Obp1,
}

/// Sprite metadata
#[derive(Clone, Copy, PartialEq, Eq, Structural, Debug)]
pub struct Sprite {
    /// Top left corner x-coordinate + 8
    pub x: u8,
    /// Top left corner y-coordinate + 16
    pub y: u8,
    /// Number of the tile containing the actual sprite pattern
    pub tile: u8,
    /// If `true` sprite is displayed behind the background and
    /// window, otherwise it's on top.
    pub background: bool,
    /// If `true` the tile pattern is flipped horizontally
    pub x_flip: bool,
    /// If `true` the tile pattern is flipped vertically
    pub y_flip: bool,
    /// Which palette the sprite uses
    pub palette: Palette,
}

/// Value of the OAM flags byte describing `s`
pub open spec fn spec_sprite_flags(s: Sprite) -> u8 {
    ((if s.background { 0x80int } else { 0 }) + (if s.y_flip { 0x40int } else { 0 }) + (if s.x_flip {
        0x20int
    } else {
        0
    }) + (if s.palette == Palette::Obp1 { 0x10int } else { 0 })) as u8
}

/// Sprite `s` with its flags loaded from OAM byte `flags`
pub open spec fn spec_with_flags(s: Sprite, flags: u8) -> Sprite {
    Sprite {
        background: flags & 0x80 != 0,
        y_flip: flags & 0x40 != 0,
        x_flip: flags & 0x20 != 0,
        palette: if flags & 0x10 != 0 {
            Palette::Obp1
        } else {
            Palette::Obp0
        },
        ..s
    }
}

/// A sprite at position 0 using tile 0, in front of the background,
/// unflipped, using `OBP0`
pub open spec fn spec_sprite_new() -> Sprite {
    Sprite {
        x: 0,
        y: 0,
        tile: 0,
        background: false,
        x_flip: false,
        y_flip: false,
        palette: Palette::Obp0,
    }
}

impl Sprite {
    pub fn new() -> (r: Sprite)
        ensures
            r == spec_sprite_new(),
    {
        Sprite {
            x: 0,
            y: 0,
            tile: 0,
            background: false,
            x_flip: false,
            y_flip: false,
            palette: Palette::Obp0,
        }
    }

    pub fn set_x_pos(&mut self, x: u8)
        ensures
            *final(self) == (Sprite { x: x, ..*old(self) }),
    {
        self.x = x;
    }

    /// Return the sprite's x position as configured in the
    /// register. The actual position of the top left corner on the
    /// screen is `x_pos - 8`
    pub fn x_pos(&self) -> (r: u8)
        ensures
            r == self.x,
    {
        self.x
    }

    /// Set the sprite's y position as configured in the
    /// register. The actual position of the top left corner on the
    /// screen is `y_pos - 16`
    pub fn set_y_pos(&mut self, y: u8)
        ensures
            *final(self) == (Sprite { y: y, ..*old(self) }),
    {
        self.y = y;
    }

    pub fn y_pos(&self) -> (r: u8)
        ensures
            r == self.y,
    {
        self.y
    }

    /// Return the number of top line of the sprite in real screen
    /// coordinates.
    pub fn top_line(&self) -> (r: i32)
        ensures
            r == self.y - 16,
    {
        (self.y as i32) - 16
    }

    /// Return the number of the left line of the sprite in real
    /// screen coordinates.
    pub fn left_column(&self) -> (r: i32)
        ensures
            r == self.x - 8,
    {
        (self.x as i32) - 8
    }

    pub fn set_tile(&mut self, tile: u8)
        ensures
            *final(self) == (Sprite { tile: tile, ..*old(self) }),
    {
        self.tile = tile;
    }

    pub fn tile(&self) -> (r: u8)
        ensures
            r == self.tile,
    {
        self.tile
    }

    pub fn background(&self) -> (r: bool)
        ensures
            r == self.background,
    {
        self.background
    }

    pub fn palette(&self) -> (r: Palette)
        ensures
            r == self.palette,
    {
        self.palette
    }

    pub fn x_flip(&self) -> (r: bool)
        ensures
            r == self.x_flip,
    {
        self.x_flip
    }

    pub fn y_flip(&self) -> (r: bool)
        ensures
            r == self.y_flip,
    {
        self.y_flip
    }

    /// Set sprite miscellaneous flags. `flags` is the OAM memory byte
    /// representing the flags.
    pub fn set_flags(&mut self, flags: u8)
        ensures
            *final(self) == spec_with_flags(*old(self), flags),
    {
        self.background = flags & 0x80 != 0;
        self.y_flip = flags & 0x40 != 0;
        self.x_flip = flags & 0x20 != 0;
        self.palette = if flags & 0x10 != 0 {
            Palette::Obp1
        } else {
            Palette::Obp0
        };
    }

    /// Reconstruct flags register value from Sprite state
    pub fn flags(&self) -> (r: u8)
        ensures
            r == spec_sprite_flags(*self),
    {
        let mut r: u8 = 0;
        if self.background {
            r = r + 0x80;
        }
        if self.y_flip {
            r = r + 0x40;
        }
        if self.x_flip {
            r = r + 0x20;
        }
        if self.palette == Palette::Obp1 {
            r = r + 0x10;
        }
        r
    }
}

/// Writing the flags byte of a sprite then reading it back gives the
/// flag bits (7 to 4) of the written value.
pub proof fn lemma_flags_roundtrip(s: Sprite, flags: u8)
    ensures
        spec_sprite_flags(spec_with_flags(s, flags)) == flags & 0xf0,
{
    crate::bits::lemma_high_nibble_bits(flags);
}

} // verus!
