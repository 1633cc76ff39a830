//! Tile graphics: an 8x8 tile stores each pixel as two bits split across a
//! byte pair, and a tile set is a 4 KB region of video RAM indexed either
//! directly or with a signed offset.

use vstd::prelude::*;

use crate::bits::{bit, spec_bit};

verus! {

/// The two-bit pixel at column `i` of a tile row whose low and high bit
/// planes are `lb` and `ub`.
pub open spec fn spec_tile_pixel(lb: u8, ub: u8, i: int) -> u8 {
    (2 * spec_bit(ub, (7 - i) as u8) + spec_bit(lb, (7 - i) as u8)) as u8
}

/// One 8x8 tile: sixteen bytes, two per row.
pub struct Tile {
    pub data: Vec<u8>,
}

impl Tile {
    pub open spec fn wf(self) -> bool {
        self.data@.len() == 16
    }

    pub fn new(data: Vec<u8>) -> (r: Tile)
        requires
            data@.len() == 16,
        ensures
            r.wf(),
            r.data == data,
    {
        Tile { data }
    }

    /// The eight pixels of one row, each value below four.
    pub fn row(&self, row: usize) -> (r: Vec<u8>)
        requires
            self.wf(),
            row < 8,
        ensures
            r@.len() == 8,
            forall|i: int|
                0 <= i < 8 ==> r@[i] == spec_tile_pixel(
                    self.data@[2 * row], self.data@[2 * row + 1], i),
            forall|i: int| 0 <= i < 8 ==> r@[i] < 4,
    {
        let lb = self.data[row * 2];
        let ub = self.data[row * 2 + 1];
        let mut result: Vec<u8> = Vec::new();
        let mut i: usize = 0;
        while i < 8
            invariant
                i <= 8,
                result@.len() == i,
                forall|j: int| 0 <= j < i ==> result@[j] == spec_tile_pixel(lb, ub, j),
                forall|j: int| 0 <= j < i ==> result@[j] < 4,
            decreases 8 - i,
        {
            let shift = (7 - i) as u8;
            let p = 2 * bit(ub, shift) + bit(lb, shift);
            result.push(p);
            i = i + 1;
        }
        result
    }
}

/// A 4 KB tile region of video RAM; with `shift` the tile index is treated
/// as signed and offset by 128, as the alternate addressing mode of the
/// display controller requires.
pub struct TileSet {
    pub data: Vec<u8>,
    pub shift: bool,
}

impl TileSet {
    pub open spec fn wf(self) -> bool {
        self.data@.len() == 0x1000
    }

    pub fn new(data: Vec<u8>, shift: bool) -> (r: TileSet)
        requires
            data@.len() == 0x1000,
        ensures
            r.wf(),
            r.data == data,
            r.shift == shift,
    {
        TileSet { data, shift }
    }

    /// The byte offset at which tile `idx` starts.
    pub open spec fn spec_tile_start(self, idx: u8) -> int {
        if self.shift {
            ((idx as i8) + 128) * 16
        } else {
            idx * 16
        }
    }

    pub fn tile(&self, idx: u8) -> (r: Tile)
        requires
            self.wf(),
        ensures
            r.wf(),
            r.data@ == self.data@.subrange(
                self.spec_tile_start(idx), self.spec_tile_start(idx) + 16),
    {
        let start: usize = if self.shift {
            let signed: i16 = #[verifier::truncate] (idx as i8) as i16;
            ((signed + 128) as usize) * 16
        } else {
            (idx as usize) * 16
        };
        let mut data: Vec<u8> = Vec::new();
        let mut i: usize = 0;
        while i < 16
            invariant
                i <= 16,
                self.data@.len() == 0x1000,
                start + 16 <= 0x1000,
                data@.len() == i,
                forall|j: int| 0 <= j < i ==> data@[j] == self.data@[start + j],
            decreases 16 - i,
        {
            data.push(self.data[start + i]);
            i = i + 1;
        }
        proof {
            assert(data@ =~= self.data@.subrange(start as int, start as int + 16));
        }
        Tile { data }
    }
}

} // verus!
