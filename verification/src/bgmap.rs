//! The background map: a 32x32 grid of tile indices, with an optional
//! per-tile attribute plane (colour hardware) selecting palette, tile bank
//! and priority. A row of the 256-pixel-wide virtual plane is composed tile
//! by tile.

use vstd::prelude::*;

use crate::bits::bit;
use crate::tiles::TileSet;

verus! {

/// Per-tile attributes of the colour hardware's second map plane.
pub struct TileAttributes {
    pub palette_num: u8,
    pub bank_one: bool,
    pub x_flip: bool,
    pub y_flip: bool,
    pub above_oam: bool,
}

impl TileAttributes {
    pub fn new(byte: u8) -> (r: TileAttributes)
        ensures
            r.palette_num == byte & 0x7,
            r.palette_num < 8,
            r.bank_one == (crate::bits::spec_bit(byte, 3) == 1),
    {
        proof {
            assert(byte & 0x7 < 8) by (bit_vector);
        }
        TileAttributes {
            palette_num: byte & 0x7,
            bank_one: bit(byte, 3) == 1,
            x_flip: bit(byte, 5) == 1,
            y_flip: bit(byte, 6) == 1,
            above_oam: bit(byte, 7) == 1,
        }
    }
}

/// One composed background pixel: its two-bit colour value, the priority
/// bit of its tile, and the palette its tile selects.
#[derive(Clone, Copy)]
pub struct BGPixel {
    pub value: u8,
    pub above_oam: bool,
    pub palette_number: u8,
}

impl BGPixel {
    pub open spec fn wf(self) -> bool {
        self.value < 4 && self.palette_number < 8
    }
}

/// A background map over its two tile sets; on colour hardware the
/// attribute plane accompanies the index plane.
pub struct BackgroundMap {
    pub data: Vec<u8>,
    pub tile_set0: TileSet,
    pub tile_set1: TileSet,
    pub attribute_data: Option<Vec<u8>>,
}

impl BackgroundMap {
    pub open spec fn wf(self) -> bool {
        &&& self.data@.len() == 0x400
        &&& self.tile_set0.wf()
        &&& self.tile_set1.wf()
        &&& match self.attribute_data {
            Some(ad) => ad@.len() == 0x400,
            None => true,
        }
    }

    pub fn new(
        data: Vec<u8>,
        tile_set0: TileSet,
        tile_set1: TileSet,
        attribute_data: Option<Vec<u8>>,
    ) -> (r: BackgroundMap)
        requires
            data@.len() == 0x400,
            tile_set0.wf(),
            tile_set1.wf(),
            attribute_data is Some ==> attribute_data.unwrap()@.len() == 0x400,
        ensures
            r.wf(),
    {
        BackgroundMap { data, tile_set0, tile_set1, attribute_data }
    }

    /// Compose one full 256-pixel row of the virtual background plane;
    /// every pixel is well formed.
    pub fn row(&self, row: usize) -> (r: Vec<BGPixel>)
        requires
            self.wf(),
            row < 256,
        ensures
            r@.len() == 256,
            forall|i: int| 0 <= i < 256 ==> (#[trigger] r@[i]).wf(),
    {
        let mut result: Vec<BGPixel> = Vec::new();
        let mut col_idx: usize = 0;
        while col_idx < 32
            invariant
                self.wf(),
                row < 256,
                col_idx <= 32,
                result@.len() == col_idx * 8,
                forall|i: int| 0 <= i < result@.len() ==> (#[trigger] result@[i]).wf(),
            decreases 32 - col_idx,
        {
            self.push_tile_row(row, col_idx, &mut result);
            col_idx = col_idx + 1;
        }
        result
    }

    /// Append the eight pixels one tile contributes to a row.
    fn push_tile_row(&self, row: usize, col_idx: usize, result: &mut Vec<BGPixel>)
        requires
            self.wf(),
            row < 256,
            col_idx < 32,
            forall|i: int| 0 <= i < old(result)@.len() ==> (#[trigger] old(result)@[i]).wf(),
        ensures
            final(result)@.len() == old(result)@.len() + 8,
            forall|i: int| 0 <= i < final(result)@.len() ==> (#[trigger] final(result)@[i]).wf(),
    {
        let idx = (row / 8) * 32 + col_idx;
        let tile_idx = self.data[idx];
        let tile_attributes = match &self.attribute_data {
            None => TileAttributes::new(0),
            Some(ad) => TileAttributes::new(ad[idx]),
        };
        let tile = if tile_attributes.bank_one {
            self.tile_set1.tile(tile_idx)
        } else {
            self.tile_set0.tile(tile_idx)
        };
        let tile_row = tile.row(row % 8);
        let mut i: usize = 0;
        while i < 8
            invariant
                i <= 8,
                tile_row@.len() == 8,
                forall|j: int| 0 <= j < 8 ==> tile_row@[j] < 4,
                tile_attributes.palette_num < 8,
                result@.len() == old(result)@.len() + i,
                forall|j: int| 0 <= j < result@.len() ==> (#[trigger] result@[j]).wf(),
            decreases 8 - i,
        {
            result.push(
                BGPixel {
                    value: tile_row[i],
                    above_oam: tile_attributes.above_oam,
                    palette_number: tile_attributes.palette_num,
                },
            );
            i = i + 1;
        }
    }
}

} // verus!
