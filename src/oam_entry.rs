use vstd::prelude::*;
use crate::alu::{bit_of, test_bit};

verus! {

/// One sprite of the attribute table: position, tile and attribute bits.
#[derive(Clone, Copy, Debug, PartialEq, Eq, Structural)]
pub struct OamEntry {
    pub y: u8,
    pub x: u8,
    pub tile_idx: u8,
    pub attributes: u8,
}

impl OamEntry {
    /// The entry packed little-endian in a word: y, x, tile, attributes.
    pub fn from_u32(value: u32) -> (r: OamEntry)
        ensures
            r.y == value % 256,
            r.x == (value / 256) % 256,
            r.tile_idx == (value / 65536) % 256,
            r.attributes == value / 16777216,
    {
        OamEntry {
            y: (value % 256) as u8,
            x: ((value / 256) % 256) as u8,
            tile_idx: ((value / 65536) % 256) as u8,
            attributes: (value / 16777216) as u8,
        }
    }

    /// The all-zero entry.
    pub fn empty() -> (r: OamEntry)
        ensures
            r == (OamEntry { y: 0, x: 0, tile_idx: 0, attributes: 0 }),
    {
        OamEntry { y: 0, x: 0, tile_idx: 0, attributes: 0 }
    }

    /// Attribute bit 5: mirrored horizontally.
    pub fn x_flipped(&self) -> (r: bool)
        ensures
            r == bit_of(self.attributes, 5),
    {
        test_bit(self.attributes, 5)
    }

    /// Attribute bit 6: mirrored vertically.
    pub fn y_flipped(&self) -> (r: bool)
        ensures
            r == bit_of(self.attributes, 6),
    {
        test_bit(self.attributes, 6)
    }

    /// Attribute bit 7: drawn behind non-zero background colours.
    pub fn draw_under_bg(&self) -> (r: bool)
        ensures
            r == bit_of(self.attributes, 7),
    {
        test_bit(self.attributes, 7)
    }

    /// Attribute bit 4: which object palette (0 or 1).
    pub fn palette(&self) -> (r: u8)
        ensures
            r == (if bit_of(self.attributes, 4) { 1u8 } else { 0u8 }),
    {
        if test_bit(self.attributes, 4) { 1 } else { 0 }
    }
}

} // verus!
