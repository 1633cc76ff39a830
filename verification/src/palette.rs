//! Palettes: the monochrome palette packs four two-bit shades into one
//! byte; the colour palette manager holds 64 bytes of five-bit-per-channel
//! colour data behind an auto-incrementing index register.

use vstd::prelude::*;

use crate::bits::{bit, spec_bit};
use crate::gameboy::Color;
use crate::bgmap::BGPixel;

verus! {

/// A monochrome palette byte: two bits of shade per colour number.
pub struct Palette {
    pub palette: u8,
}

/// The shade index a monochrome palette assigns to colour number `byte`.
pub open spec fn spec_shade(palette: u8, byte: u8) -> u8 {
    (palette >> (2 * byte)) & 3
}

/// The fixed grey the four shade indices map to.
pub open spec fn spec_grey(idx: u8) -> Color {
    if idx == 0 {
        Color { r: 31, g: 31, b: 31 }
    } else if idx == 1 {
        Color { r: 20, g: 20, b: 20 }
    } else if idx == 2 {
        Color { r: 10, g: 10, b: 10 }
    } else {
        Color { r: 0, g: 0, b: 0 }
    }
}

impl Palette {
    pub fn new(palette: u8) -> (r: Palette)
        ensures
            r.palette == palette,
    {
        Palette { palette }
    }

    /// Map a two-bit colour number through the palette to a grey.
    pub fn color(&self, byte: u8) -> (r: Color)
        requires
            byte < 4,
        ensures
            r == spec_grey(spec_shade(self.palette, byte)),
    {
        let shift: u8 = 2 * byte;
        let idx = (self.palette >> shift) & 3;
        proof {
            let p = self.palette;
            assert((p >> shift) & 3 < 4) by (bit_vector);
        }
        if idx == 0 {
            Color { r: 31, g: 31, b: 31 }
        } else if idx == 1 {
            Color { r: 20, g: 20, b: 20 }
        } else if idx == 2 {
            Color { r: 10, g: 10, b: 10 }
        } else {
            Color { r: 0, g: 0, b: 0 }
        }
    }
}

/// The colour palette store: 64 data bytes reached through an index
/// register that can step forward on every write.
pub struct PaletteManager {
    pub index: usize,
    pub auto_increment: bool,
    pub data: Vec<u8>,
}

/// What a store through the colour-palette data port does: the byte lands
/// at the index register, which steps forward (wrapping past the last
/// byte) when auto-increment is armed.
pub open spec fn palette_data_write(pre: PaletteManager, post: PaletteManager, byte: u8) -> bool {
    &&& post.data@ == pre.data@.update(pre.index as int, byte)
    &&& post.auto_increment == pre.auto_increment
    &&& post.index == (if pre.auto_increment {
        (pre.index + 1) % 64
    } else {
        pre.index as int
    })
}

impl PaletteManager {
    pub open spec fn wf(self) -> bool {
        self.index < 64 && self.data@.len() == 64
    }

    pub fn new() -> (r: PaletteManager)
        ensures
            r.wf(),
            r.index == 0,
            !r.auto_increment,
            forall|i: int| 0 <= i < 64 ==> r.data@[i] == 0xFF,
    {
        PaletteManager {
            index: 0,
            auto_increment: false,
            data: crate::devices::filled_vec(64, 0xFF),
        }
    }

    /// Point the index register at a data byte; the top bit arms
    /// auto-increment.
    pub fn set_index(&mut self, index: u8)
        requires
            old(self).wf(),
        ensures
            final(self).wf(),
            final(self).index == index & 0x3F,
            final(self).auto_increment == (spec_bit(index, 7) == 1),
            final(self).data == old(self).data,
    {
        proof {
            assert(index & 0x3F < 64) by (bit_vector);
        }
        self.index = (index & 0x3F) as usize;
        self.auto_increment = bit(index, 7) == 1;
    }

    /// Store a byte at the index register, stepping it forward (and
    /// wrapping past the last byte) when auto-increment is armed.
    pub fn set8(&mut self, byte: u8)
        requires
            old(self).wf(),
        ensures
            final(self).wf(),
            final(self).data@ == old(self).data@.update(old(self).index as int, byte),
            final(self).auto_increment == old(self).auto_increment,
            final(self).index == (if old(self).auto_increment {
                (old(self).index + 1) % 64
            } else {
                old(self).index as int
            }),
    {
        self.data.set(self.index, byte);
        if self.auto_increment {
            self.index = (self.index + 1) % 64;
        }
    }

    /// Decode the five-bit red, green and blue channels stored for a
    /// pixel's palette and colour number.
    pub fn color(&self, pixel: BGPixel) -> (r: Color)
        requires
            self.wf(),
            pixel.palette_number < 8,
            pixel.value < 4,
        ensures
            r.r < 32 && r.g < 32 && r.b < 32,
    {
        let offset = (pixel.palette_number as usize) * 8 + (pixel.value as usize) * 2;
        let b0 = self.data[offset] as u16;
        let b1 = self.data[offset + 1] as u16;
        let b10 = (b1 << 8) | b0;
        proof {
            assert({
                &&& ((b1 << 8) | b0) & 0x1F < 32
                &&& ((((b1 << 8) | b0) >> 5) & 0x1F) < 32
                &&& ((((b1 << 8) | b0) >> 10) & 0x1F) < 32
            }) by (bit_vector);
        }
        let red = (b10 & 0x1F) as u8;
        let green = ((b10 >> 5) & 0x1F) as u8;
        let blue = ((b10 >> 10) & 0x1F) as u8;
        Color { r: red, g: green, b: blue }
    }
}

} // verus!
