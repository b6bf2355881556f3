//! One OAM entry: 4 bytes holding position, tile and attribute flags.

use vstd::prelude::*;

verus! {

/// A sprite as stored in OAM. The stored y/x are offset by 16/8 from the
/// screen position.
#[derive(Clone, Copy, PartialEq, Eq, Structural, Debug)]
pub struct Sprite {
    pub y: u8,
    pub x: u8,
    pub tile: u8,
    pub flags: u8,
}

impl Sprite {
    pub fn new() -> (r: Sprite)
        ensures
            r == (Sprite { y: 0, x: 0, tile: 0, flags: 0 }),
    {
        Sprite { y: 0, x: 0, tile: 0, flags: 0 }
    }

    /// The byte of this OAM entry at the given offset 0..4.
    pub fn get_at_offset(&self, offset: u8) -> (r: u8)
        requires
            offset < 4,
        ensures
            offset == 0 ==> r == self.y,
            offset == 1 ==> r == self.x,
            offset == 2 ==> r == self.tile,
            offset == 3 ==> r == self.flags,
    {
        if offset == 0 {
            self.y
        } else if offset == 1 {
            self.x
        } else if offset == 2 {
            self.tile
        } else {
            self.flags
        }
    }

    pub fn set_at_offset(&mut self, offset: u8, data: u8)
        requires
            offset < 4,
        ensures
            offset == 0 ==> *final(self) == (Sprite { y: data, ..*old(self) }),
            offset == 1 ==> *final(self) == (Sprite { x: data, ..*old(self) }),
            offset == 2 ==> *final(self) == (Sprite { tile: data, ..*old(self) }),
            offset == 3 ==> *final(self) == (Sprite { flags: data, ..*old(self) }),
    {
        if offset == 0 {
            self.y = data;
        } else if offset == 1 {
            self.x = data;
        } else if offset == 2 {
            self.tile = data;
        } else {
            self.flags = data;
        }
    }

    pub fn y(&self) -> (r: u8)
        ensures
            r == self.y,
    {
        self.y
    }

    pub fn x(&self) -> (r: u8)
        ensures
            r == self.x,
    {
        self.x
    }

    /// Screen row of the sprite's top line: stored y minus 16, wrapping.
    pub fn screen_y(&self) -> (r: u8)
        ensures
            r == vstd::wrapping::u8_specs::wrapping_sub(self.y, 16),
    {
        self.y.wrapping_sub(16)
    }

    /// Screen column of the sprite's left edge: stored x minus 8, wrapping.
    pub fn screen_x(&self) -> (r: u8)
        ensures
            r == vstd::wrapping::u8_specs::wrapping_sub(self.x, 8),
    {
        self.x.wrapping_sub(8)
    }

    pub fn tile(&self) -> (r: u8)
        ensures
            r == self.tile,
    {
        self.tile
    }

    /// DMG object palette selector (flag bit 4): 0 picks OBP0, 1 picks OBP1.
    pub fn palette_selector(&self) -> (r: u8)
        ensures
            r == (if self.flags & 0x10u8 != 0 { 1u8 } else { 0u8 }),
    {
        if self.flags & 0x10 != 0 {
            1
        } else {
            0
        }
    }

    /// Flag bit 7: when set, non-zero background pixels cover this sprite.
    pub fn bg_priority(&self) -> (r: bool)
        ensures
            r == (self.flags & 0x80u8 != 0),
    {
        self.flags & 0x80 != 0
    }

    pub fn y_flipped(&self) -> (r: bool)
        ensures
            r == (self.flags & 0x40u8 != 0),
    {
        self.flags & 0x40 != 0
    }

    pub fn x_flipped(&self) -> (r: bool)
        ensures
            r == (self.flags & 0x20u8 != 0),
    {
        self.flags & 0x20 != 0
    }

    /// CGB palette number, flag bits 0..3.
    pub fn cgb_palette(&self) -> (r: u8)
        ensures
            r == self.flags & 0x07u8,
    {
        self.flags & 0x07
    }

    /// CGB VRAM bank, flag bit 3.
    pub fn bank(&self) -> (r: u8)
        ensures
            r == (if self.flags & 0x08u8 != 0 { 1u8 } else { 0u8 }),
    {
        if self.flags & 0x08 != 0 {
            1
        } else {
            0
        }
    }
}

} // verus!
