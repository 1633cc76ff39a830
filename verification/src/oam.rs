//! The sprite attribute table: forty 4-byte entries of position, tile
//! number and flags. Composing a scanline picks the first ten sprites that
//! cross it, in table order, and keeps the leftmost-written pixel.

use vstd::prelude::*;

use crate::bits::bit;
use crate::gameboy::Mode;
use crate::tiles::{Tile, TileSet};

verus! {

#[derive(Clone, Copy)]
pub enum SpriteSize {
    EightByEight,
    EightBySixteen,
}

/// One decoded sprite entry.
pub struct OamEntry {
    pub x: u8,
    pub y: u8,
    pub tile_num: u8,
    pub height: u8,
    pub above_background: bool,
    pub y_flip: bool,
    pub x_flip: bool,
    pub palette_number: u8,
    pub bank_one: bool,
}

impl OamEntry {
    pub open spec fn wf(self) -> bool {
        &&& (self.height == 8 || self.height == 16)
        &&& self.palette_number < 8
        &&& (self.height == 16 ==> self.tile_num % 2 == 0)
    }

    /// Decode one 4-byte table entry; monochrome hardware picks one of two
    /// sprite palettes, colour hardware a three-bit palette number. The
    /// tall-sprite mode masks the tile number even.
    pub fn new(mode: Mode, data: &[u8], size: SpriteSize) -> (r: OamEntry)
        requires
            data@.len() == 4,
        ensures
            r.wf(),
            r.y == data@[0],
            r.x == data@[1],
    {
        let height: u8 = match size {
            SpriteSize::EightByEight => 8,
            SpriteSize::EightBySixteen => 16,
        };
        let flags = *vstd::slice::slice_index_get(data, 3);
        let tile_byte = *vstd::slice::slice_index_get(data, 2);
        let tile_num = if height == 8 {
            tile_byte
        } else {
            proof {
                assert((tile_byte & 0xFE) % 2 == 0) by (bit_vector);
            }
            tile_byte & 0xFE
        };
        let palette_number: u8 = match mode {
            Mode::DMG => bit(flags, 4),
            Mode::CGB => {
                proof {
                    assert(flags & 0x7 < 8) by (bit_vector);
                }
                flags & 0x7
            }
        };
        OamEntry {
            x: *vstd::slice::slice_index_get(data, 1),
            y: *vstd::slice::slice_index_get(data, 0),
            bank_one: bit(flags, 3) == 1,
            tile_num,
            height,
            above_background: bit(flags, 7) == 0,
            y_flip: bit(flags, 6) == 1,
            x_flip: bit(flags, 5) == 1,
            palette_number,
        }
    }

    /// Whether this sprite crosses scanline `ly`; sprite Y coordinates are
    /// stored offset by sixteen.
    pub fn is_on_row(&self, ly: u8) -> (r: bool)
        requires
            ly <= 153,
        ensures
            r == (self.y <= ly + 16 < self.y + self.height),
    {
        let line = ly as u16 + 16;
        self.y as u16 <= line && line < self.y as u16 + self.height as u16
    }

    /// The eight pixels of this sprite on scanline `ly`, honouring the two
    /// flip flags and the tall-sprite tile pairing.
    pub fn row(&self, ly: u8, tile_set0: &TileSet, tile_set1: &TileSet) -> (r: Vec<u8>)
        requires
            self.wf(),
            ly <= 153,
            self.y <= ly + 16 < self.y + self.height,
            tile_set0.wf(),
            tile_set1.wf(),
        ensures
            r@.len() == 8,
            forall|i: int| 0 <= i < 8 ==> r@[i] < 4,
    {
        let mut tile_y: usize = (ly as usize + 16) - self.y as usize;
        let tile_set = if self.bank_one {
            tile_set1
        } else {
            tile_set0
        };
        if self.y_flip {
            tile_y = (self.height as usize) - 1 - tile_y;
        }
        let mut tile_row: Vec<u8> = if tile_y < 8 {
            tile_set.tile(self.tile_num).row(tile_y)
        } else {
            tile_set.tile(self.tile_num + 1).row(tile_y % 8)
        };
        if self.x_flip {
            let mut reversed: Vec<u8> = Vec::new();
            let mut i: usize = 0;
            while i < 8
                invariant
                    i <= 8,
                    tile_row@.len() == 8,
                    forall|j: int| 0 <= j < 8 ==> tile_row@[j] < 4,
                    reversed@.len() == i,
                    forall|j: int| 0 <= j < i ==> reversed@[j] < 4,
                decreases 8 - i,
            {
                reversed.push(tile_row[7 - i]);
                i = i + 1;
            }
            tile_row = reversed;
        }
        tile_row
    }
}

/// One sprite pixel that won its slot on a scanline.
#[derive(Clone, Copy)]
pub struct OamPixel {
    pub value: u8,
    pub above_background: bool,
    pub palette_number: u8,
}

impl OamPixel {
    pub open spec fn wf(self) -> bool {
        self.value < 4 && self.palette_number < 8
    }
}

/// The decoded sprite table with the tile sets its pixels come from.
pub struct OamEntries {
    pub entries: Vec<OamEntry>,
    pub tile_set0: TileSet,
    pub tile_set1: TileSet,
}

impl OamEntries {
    pub open spec fn wf(self) -> bool {
        &&& self.entries@.len() == 40
        &&& forall|i: int| 0 <= i < 40 ==> (#[trigger] self.entries@[i]).wf()
        &&& self.tile_set0.wf()
        &&& self.tile_set1.wf()
    }

    pub fn new(mode: Mode, oam: &Vec<u8>, tile_set0: TileSet, tile_set1: TileSet,
        size: SpriteSize) -> (r: OamEntries)
        requires
            oam@.len() == 0xA0,
            tile_set0.wf(),
            tile_set1.wf(),
        ensures
            r.wf(),
    {
        let mut entries: Vec<OamEntry> = Vec::new();
        let mut i: usize = 0;
        while i < 40
            invariant
                i <= 40,
                oam@.len() == 0xA0,
                entries@.len() == i,
                forall|j: int| 0 <= j < i ==> (#[trigger] entries@[j]).wf(),
            decreases 40 - i,
        {
            let base = 4 * i;
            let mut quad: Vec<u8> = Vec::new();
            quad.push(oam[base]);
            quad.push(oam[base + 1]);
            quad.push(oam[base + 2]);
            quad.push(oam[base + 3]);
            let entry = OamEntry::new(mode, quad.as_slice(), size);
            entries.push(entry);
            i = i + 1;
        }
        OamEntries { entries, tile_set0, tile_set1 }
    }

    /// Compose the sprite pixels of scanline `ly`: scan the table in
    /// order, take at most ten sprites that cross the line, and let the
    /// first sprite to claim a horizontal position keep it; colour number
    /// zero is transparent.
    pub fn row(&self, ly: u8) -> (r: Vec<Option<OamPixel>>)
        requires
            self.wf(),
            ly <= 153,
        ensures
            r@.len() == 160,
            forall|i: int|
                0 <= i < 160 && r@[i] is Some ==> (#[trigger] r@[i]).unwrap().wf(),
    {
        let mut result: Vec<Option<OamPixel>> = Vec::new();
        let mut i: usize = 0;
        while i < 160
            invariant
                i <= 160,
                result@.len() == i,
                forall|j: int| 0 <= j < i ==> result@[j] is None,
            decreases 160 - i,
        {
            result.push(None);
            i = i + 1;
        }

        let mut taken: usize = 0;
        let mut e: usize = 0;
        while e < 40 && taken < 10
            invariant
                self.wf(),
                ly <= 153,
                e <= 40,
                taken <= 10,
                result@.len() == 160,
                forall|j: int|
                    0 <= j < 160 && result@[j] is Some ==> (#[trigger] result@[j])
                        .unwrap().wf(),
            decreases 40 - e,
        {
            let entry = &self.entries[e];
            if entry.is_on_row(ly) {
                taken = taken + 1;
                let tile_row = entry.row(ly, &self.tile_set0, &self.tile_set1);
                let right_edge_x = entry.x as usize;
                let mut idx: usize = 0;
                while idx < 8
                    invariant
                        idx <= 8,
                        right_edge_x <= 255,
                        tile_row@.len() == 8,
                        forall|j: int| 0 <= j < 8 ==> tile_row@[j] < 4,
                        entry.palette_number < 8,
                        result@.len() == 160,
                        forall|j: int|
                            0 <= j < 160 && result@[j] is Some ==> (#[trigger] result@[j])
                                .unwrap().wf(),
                    decreases 8 - idx,
                {
                    // The stored X coordinate is offset right by eight.
                    let screen_x = right_edge_x + idx;
                    if screen_x >= 8 && screen_x - 8 < 160 && tile_row[idx] != 0 {
                        let pos = screen_x - 8;
                        if result[pos].is_none() {
                            result.set(
                                pos,
                                Some(
                                    OamPixel {
                                        value: tile_row[idx],
                                        above_background: entry.above_background,
                                        palette_number: entry.palette_number,
                                    },
                                ),
                            );
                        }
                    }
                    idx = idx + 1;
                }
            }
            e = e + 1;
        }
        result
    }
}

} // verus!
