//! The display controller: two banks of video RAM, the sprite table, the
//! scanline state machine that paces one frame, palette registers, and the
//! composition of background, window and sprite pixels into a frame
//! buffer. The pixel-composition results are out of this core's contracts;
//! what is pinned down is the register file, the state machine's bounds and
//! which interrupts a tick may raise.

use vstd::prelude::*;

use crate::bits::{bit, spec_bit};
use crate::bgmap::{BackgroundMap, BGPixel};
use crate::devices::filled_vec;
use crate::gameboy::{Color, Mode, GAME_WIDTH};
use crate::interrupts::Interrupt;
use crate::oam::{OamEntries, OamPixel, SpriteSize};
use crate::palette::{palette_data_write, Palette, PaletteManager};
use crate::tiles::TileSet;

verus! {

/// Start of video RAM.
pub const VRAM_START: u16 = 0x8000;

/// Size of one video RAM bank.
pub const VRAM_SIZE: usize = 0x2000;

/// Last address of video RAM, inclusive.
pub const VRAM_END: u16 = 0x9FFF;

/// Start of the sprite attribute table.
pub const OAM_START: u16 = 0xFE00;

/// Size of the sprite attribute table.
pub const OAM_SIZE: usize = 0xA0;

/// Last address of the sprite attribute table, inclusive.
pub const OAM_END: u16 = 0xFE9F;

pub const LCDC_ADDR: u16 = 0xFF40;

pub const STAT_ADDR: u16 = 0xFF41;

pub const SCY_ADDR: u16 = 0xFF42;

pub const SCX_ADDR: u16 = 0xFF43;

pub const LY_ADDR: u16 = 0xFF44;

pub const LYC_ADDR: u16 = 0xFF45;

pub const BGP_ADDR: u16 = 0xFF47;

pub const OBP0_ADDR: u16 = 0xFF48;

pub const OBP1_ADDR: u16 = 0xFF49;

pub const WY_ADDR: u16 = 0xFF4A;

pub const WX_ADDR: u16 = 0xFF4B;

pub const VBK_ADDR: u16 = 0xFF4F;

pub const HDMA1_ADDR: u16 = 0xFF51;

pub const HDMA2_ADDR: u16 = 0xFF52;

pub const HDMA3_ADDR: u16 = 0xFF53;

pub const HDMA4_ADDR: u16 = 0xFF54;

pub const HDMA5_ADDR: u16 = 0xFF55;

pub const BGPI_ADDR: u16 = 0xFF68;

pub const BGPD_ADDR: u16 = 0xFF69;

pub const OBPI_ADDR: u16 = 0xFF6A;

pub const OBPD_ADDR: u16 = 0xFF6B;

/// The four recurring phases of a scanline.
#[derive(Copy, Clone, Debug, PartialEq, Eq, Structural)]
pub enum Period {
    OAMSearch,
    PixelTransfer,
    HBlank,
    VBlank,
}

/// Machine cycles each scanline phase lasts.
pub open spec fn spec_period_clocks(p: Period) -> u32 {
    match p {
        Period::OAMSearch => 20,
        Period::PixelTransfer => 43,
        Period::HBlank => 51,
        Period::VBlank => 114,
    }
}

/// The mode number the status register reports for each phase.
pub open spec fn spec_period_mode(p: Period) -> u8 {
    match p {
        Period::OAMSearch => 2,
        Period::PixelTransfer => 3,
        Period::HBlank => 0,
        Period::VBlank => 1,
    }
}

/// Whether a phase transition raises the display-status interrupt: the
/// new phase's enable bit in the status register, or the coincidence
/// enable with the scanline matching the compare register; the
/// pixel-transfer phase never raises it.
pub open spec fn spec_stat_raised(stat: u8, period: Period, coincidence: bool) -> bool {
    match period {
        Period::OAMSearch => spec_bit(stat, 5) == 1 || (spec_bit(stat, 6) == 1 && coincidence),
        Period::PixelTransfer => false,
        Period::HBlank => spec_bit(stat, 3) == 1,
        Period::VBlank => spec_bit(stat, 4) == 1 || (spec_bit(stat, 6) == 1 && coincidence),
    }
}

/// The phase that follows `p` on scanline `ly`, and the scanline it runs
/// on: the visible phases cycle within a line, line 143's horizontal blank
/// hands over to the vertical blank, and line 153 wraps to a new frame.
pub open spec fn spec_period_next(p: Period, ly: u8) -> (Period, u8) {
    match p {
        Period::OAMSearch => (Period::PixelTransfer, ly),
        Period::PixelTransfer => (Period::HBlank, ly),
        Period::HBlank => if ly < 143 {
            (Period::OAMSearch, (ly + 1) as u8)
        } else {
            (Period::VBlank, (ly + 1) as u8)
        },
        Period::VBlank => if ly >= 153 {
            (Period::OAMSearch, 0u8)
        } else {
            (Period::VBlank, (ly + 1) as u8)
        },
    }
}

impl Period {
    /// Machine cycles the phase lasts.
    pub fn clocks(&self) -> (r: u32)
        ensures
            r == spec_period_clocks(*self),
            20 <= r <= 114,
    {
        match self {
            Period::OAMSearch => 20,
            Period::PixelTransfer => 43,
            Period::HBlank => 51,
            Period::VBlank => 114,
        }
    }

    /// The phase that follows, and the scanline it runs on.
    pub fn next(&self, ly: u8) -> (r: (Period, u8))
        requires
            ly <= 153,
            !(*self is VBlank) ==> ly <= 143,
        ensures
            r == spec_period_next(*self, ly),
            r.1 <= 153,
            !(r.0 is VBlank) ==> r.1 <= 143,
    {
        match self {
            Period::OAMSearch => (Period::PixelTransfer, ly),
            Period::PixelTransfer => (Period::HBlank, ly),
            Period::HBlank => {
                if ly < 143 {
                    (Period::OAMSearch, ly + 1)
                } else {
                    (Period::VBlank, ly + 1)
                }
            }
            Period::VBlank => {
                if ly >= 153 {
                    (Period::OAMSearch, 0)
                } else {
                    (Period::VBlank, ly + 1)
                }
            }
        }
    }

    /// The mode number the status register reports for the phase.
    pub fn mode(&self) -> (r: u8)
        ensures
            r == spec_period_mode(*self),
            r <= 3,
    {
        match self {
            Period::OAMSearch => 2,
            Period::PixelTransfer => 3,
            Period::HBlank => 0,
            Period::VBlank => 1,
        }
    }
}

/// Where the scanline state machine stands: the current phase, the cycles
/// it still has to run, and the scanline it is on.
pub struct LcdState {
    pub period: Period,
    pub clocks_left: u32,
    pub ly: u8,
}

impl LcdState {
    pub open spec fn wf(self) -> bool {
        &&& self.ly <= 153
        &&& (self.period is OAMSearch || self.period is PixelTransfer || self.period
            is HBlank ==> self.ly <= 143)
    }

    pub fn init() -> (r: LcdState)
        ensures
            r.wf(),
            r.period is OAMSearch,
            r.ly == 0,
            r.clocks_left == 20,
    {
        LcdState { period: Period::OAMSearch, clocks_left: 20, ly: 0 }
    }

    /// Consume cycles; on a phase boundary the leftover cycles come back
    /// so the caller loops, otherwise zero.
    pub fn tick(&mut self, clocks: u32) -> (rem: u32)
        requires
            old(self).wf(),
        ensures
            final(self).wf(),
            rem <= clocks,
            old(self).clocks_left < clocks ==> {
                &&& rem == clocks - old(self).clocks_left
                &&& final(self).clocks_left >= 20
                &&& *final(self) == (LcdState {
                    period: spec_period_next(old(self).period, old(self).ly).0,
                    clocks_left: spec_period_clocks(spec_period_next(old(self).period,
                        old(self).ly).0),
                    ly: spec_period_next(old(self).period, old(self).ly).1,
                })
            },
            old(self).clocks_left >= clocks ==> rem == 0 && *final(self) == (LcdState {
                clocks_left: (old(self).clocks_left - clocks) as u32,
                ..*old(self)
            }),
    {
        if self.clocks_left < clocks {
            let rem_clocks = clocks - self.clocks_left;
            let stepped = self.period.next(self.ly);
            self.period = stepped.0;
            self.ly = stepped.1;
            self.clocks_left = stepped.0.clocks();
            rem_clocks
        } else {
            self.clocks_left = self.clocks_left - clocks;
            0
        }
    }
}

/// Where the scanline machine stands after consuming `c` machine cycles:
/// cycles drain the current phase's budget, and crossing a boundary moves
/// to the next phase with its full budget and the leftover cycles.
pub open spec fn spec_state_advance(s: LcdState, c: nat) -> LcdState
    decreases c, (if s.clocks_left == 0 {
        1int
    } else {
        0
    }),
{
    if c == 0 {
        s
    } else if s.clocks_left >= c {
        LcdState { clocks_left: (s.clocks_left - c) as u32, ..s }
    } else {
        let stepped = spec_period_next(s.period, s.ly);
        spec_state_advance(LcdState {
            period: stepped.0,
            clocks_left: spec_period_clocks(stepped.0),
            ly: stepped.1,
        }, (c - s.clocks_left) as nat)
    }
}

pub struct LcdController {
    pub vram0: Vec<u8>,
    pub vram1: Vec<u8>,
    pub vram_bank_one: bool,
    pub oam: Vec<u8>,
    pub lcdc: u8,
    pub stat: u8,
    pub scy: u8,
    pub scx: u8,
    pub ly: u8,
    pub lyc: u8,
    pub bgp: u8,
    pub obp0: u8,
    pub obp1: u8,
    pub wy: u8,
    pub wx: u8,
    pub bg_palette: Palette,
    pub ob0_palette: Palette,
    pub ob1_palette: Palette,
    pub bg_palette_manager: PaletteManager,
    pub ob_palette_manager: PaletteManager,
    pub state: LcdState,
    pub mode: Mode,
    pub vram_dma_src: u16,
    pub vram_dma_dst: u16,
    pub pending_hblank_dma: u16,
}

impl LcdController {
    pub open spec fn wf(self) -> bool {
        &&& self.vram0@.len() == VRAM_SIZE
        &&& self.vram1@.len() == VRAM_SIZE
        &&& self.oam@.len() == OAM_SIZE
        &&& self.bg_palette_manager.wf()
        &&& self.ob_palette_manager.wf()
        &&& self.state.wf()
        &&& self.ly <= 153
        &&& self.vram_dma_dst <= 0x1FF0
    }

    pub fn new() -> (r: LcdController)
        ensures
            r.wf(),
            r.lcdc == 0x91,
            r.ly == 0,
            r.mode is CGB,
    {
        LcdController {
            vram0: filled_vec(VRAM_SIZE, 0),
            vram1: filled_vec(VRAM_SIZE, 0),
            vram_bank_one: false,
            oam: filled_vec(OAM_SIZE, 0),
            lcdc: 0x91,
            stat: 0,
            scy: 0,
            scx: 0,
            ly: 0,
            lyc: 0,
            bgp: 0,
            obp0: 0,
            obp1: 0,
            wy: 0,
            wx: 0,
            bg_palette: Palette::new(0),
            ob0_palette: Palette::new(0),
            ob1_palette: Palette::new(0),
            bg_palette_manager: PaletteManager::new(),
            ob_palette_manager: PaletteManager::new(),
            state: LcdState::init(),
            mode: Mode::CGB,
            vram_dma_src: 0,
            vram_dma_dst: 0,
            pending_hblank_dma: 0,
        }
    }

    pub fn set_mode(&mut self, mode: Mode)
        requires
            old(self).wf(),
        ensures
            final(self).wf(),
            *final(self) == (LcdController { mode, ..*old(self) }),
    {
        self.mode = mode;
    }

    /// The address ranges this controller answers for: video RAM, the
    /// display registers, the bank select, the VRAM DMA registers, the two
    /// palette ports and the sprite table.
    pub fn mapped_areas() -> (r: Vec<crate::memory::MappedArea>)
        ensures
            r@.len() == 8,
            forall|k: int| 0 <= k < r@.len() ==> (#[trigger] r@[k]).wf(),
            r@[0].0 == VRAM_START && r@[0].1 == VRAM_SIZE,
            r@[1].0 == LCDC_ADDR && r@[1].1 == 6,
            r@[2].0 == BGP_ADDR && r@[2].1 == 5,
            r@[3].0 == VBK_ADDR && r@[3].1 == 1,
            r@[4].0 == HDMA1_ADDR && r@[4].1 == 5,
            r@[5].0 == BGPI_ADDR && r@[5].1 == 2,
            r@[6].0 == OBPI_ADDR && r@[6].1 == 2,
            r@[7].0 == OAM_START && r@[7].1 == OAM_SIZE,
    {
        let mut v: Vec<crate::memory::MappedArea> = Vec::new();
        v.push(crate::memory::MappedArea(VRAM_START, VRAM_SIZE));
        v.push(crate::memory::MappedArea(LCDC_ADDR, 6));
        v.push(crate::memory::MappedArea(BGP_ADDR, 5));
        v.push(crate::memory::MappedArea(VBK_ADDR, 1));
        v.push(crate::memory::MappedArea(HDMA1_ADDR, 5));
        v.push(crate::memory::MappedArea(BGPI_ADDR, 2));
        v.push(crate::memory::MappedArea(OBPI_ADDR, 2));
        v.push(crate::memory::MappedArea(OAM_START, OAM_SIZE));
        v
    }

    /// Whether the display is switched on.
    pub open spec fn spec_display_enabled(self) -> bool {
        spec_bit(self.lcdc, 7) == 1
    }

    pub fn display_enabled(&self) -> (r: bool)
        ensures
            r == self.spec_display_enabled(),
    {
        bit(self.lcdc, 7) == 1
    }

    /// How one tick relates the controller before to the controller
    /// after, with the interrupts it raised. When the display is off
    /// nothing changes and nothing is raised. When it is on: the scanline
    /// machine advances by exactly `clocks` cycles; only the scanline,
    /// status and machine-state fields change; the status register takes
    /// the new mode and coincidence bits on a phase transition and is
    /// untouched otherwise; the frame-complete interrupt is raised exactly
    /// on entering the vertical blank; and the display-status interrupt is
    /// raised exactly when the transition and the status register's enable
    /// bits call for it.
    #[verifier::opaque]
    pub open spec fn tick_rel(self, post: LcdController, clocks: u32, raised: Seq<
        Interrupt>) -> bool {
        &&& raised.len() <= 2
        &&& (forall|i: int|
            0 <= i < raised.len() ==> (raised[i] == Interrupt::VBlank || raised[i]
                == Interrupt::Stat))
        &&& (!self.spec_display_enabled() ==> post == self && raised.len() == 0)
        &&& (self.spec_display_enabled() ==> {
            &&& post.state == spec_state_advance(self.state, clocks as nat)
            &&& post.ly == post.state.ly
            &&& post == (LcdController {
                ly: post.ly,
                stat: post.stat,
                state: post.state,
                ..self
            })
            &&& (post.state.period == self.state.period ==> post.stat == self.stat
                && raised.len() == 0)
            &&& (post.state.period != self.state.period ==> post.stat == ((self.stat & 0x78)
                | (if post.ly == post.lyc {
                4u8
            } else {
                0u8
            }) | spec_period_mode(post.state.period)))
            &&& (raised.contains(Interrupt::VBlank) <==> (post.state.period
                != self.state.period && post.state.period is VBlank))
            &&& (raised.contains(Interrupt::Stat) <==> (post.state.period != self.state.period
                && spec_stat_raised(post.stat, post.state.period, post.ly == post.lyc)))
        })
    }

    /// Advance the scanline state machine by exactly `clocks` cycles and
    /// compose any scanlines crossed; interrupts raised are returned. The
    /// cycle pacing, the status register's mode bits, and exactly when the
    /// frame-complete and display-status interrupts fire are pinned down
    /// by the tick relation; the composed pixels are not.
    pub fn tick(&mut self, clocks: u32, frame_buffer: &mut Vec<Color>) -> (raised: Vec<
        Interrupt>)
        requires
            old(self).wf(),
            old(frame_buffer)@.len() == 160 * 144,
        ensures
            final(self).wf(),
            final(frame_buffer)@.len() == 160 * 144,
            final(self).ly <= 153,
            old(self).tick_rel(*final(self), clocks, raised@),
    {
        proof {
            reveal(LcdController::tick_rel);
        }
        let mut raised: Vec<Interrupt> = Vec::new();
        if !self.display_enabled() {
            return raised;
        }

        let orig_period = self.state.period;
        let mut clocks_left = clocks;
        while clocks_left > 0
            invariant
                self.wf(),
                *self == (LcdController { state: self.state, ..*old(self) }),
                spec_state_advance(old(self).state, clocks as nat) == spec_state_advance(
                    self.state, clocks_left as nat),
            decreases
                2 * clocks_left + (if self.state.clocks_left == 0 {
                    1int
                } else {
                    0
                }),
        {
            clocks_left = self.state.tick(clocks_left);
        }
        proof {
            assert(self.state == spec_state_advance(old(self).state, clocks as nat));
        }
        self.ly = self.state.ly;
        if !period_eq(orig_period, self.state.period) {
            let ly_coincidence = self.ly == self.lyc;
            let coincidence_bit: u8 = if ly_coincidence {
                4
            } else {
                0
            };
            self.stat = (self.stat & 0x78) | coincidence_bit | self.state.period.mode();
            match self.state.period {
                Period::OAMSearch => {
                    if bit(self.stat, 5) == 1 || (bit(self.stat, 6) == 1 && ly_coincidence) {
                        raised.push(Interrupt::Stat);
                        proof {
                            assert(raised@[0] == Interrupt::Stat);
                            assert(raised@.contains(Interrupt::Stat));
                        }
                    }
                    proof {
                        assert(forall|i: int|
                            0 <= i < raised@.len() ==> raised@[i] == Interrupt::Stat);
                    }
                }
                Period::PixelTransfer => {
                    self.fill_framebuffer(frame_buffer);
                }
                Period::VBlank => {
                    raised.push(Interrupt::VBlank);
                    if bit(self.stat, 4) == 1 || (bit(self.stat, 6) == 1 && ly_coincidence) {
                        raised.push(Interrupt::Stat);
                        proof {
                            assert(raised@[1] == Interrupt::Stat);
                            assert(raised@.contains(Interrupt::Stat));
                        }
                    }
                    proof {
                        assert(raised@[0] == Interrupt::VBlank);
                        assert(raised@.contains(Interrupt::VBlank));
                        assert(forall|i: int|
                            0 <= i < raised@.len() ==> (raised@[i] == Interrupt::VBlank
                                || raised@[i] == Interrupt::Stat));
                    }
                }
                Period::HBlank => {
                    if bit(self.stat, 3) == 1 {
                        raised.push(Interrupt::Stat);
                        proof {
                            assert(raised@[0] == Interrupt::Stat);
                            assert(raised@.contains(Interrupt::Stat));
                        }
                    }
                    proof {
                        assert(forall|i: int|
                            0 <= i < raised@.len() ==> raised@[i] == Interrupt::Stat);
                    }
                }
            }
        }
        raised
    }

    /// Replace the sprite table wholesale, as the sprite-table DMA does.
    pub fn dma(&mut self, data: &Vec<u8>)
        requires
            old(self).wf(),
            data@.len() == OAM_SIZE,
        ensures
            final(self).wf(),
            *final(self) == (LcdController { oam: final(self).oam, ..*old(self) }),
            final(self).oam@ == data@,
    {
        self.oam = crate::mbc::clone_bytes(data);
    }

    /// What the synchronous block copy into video RAM does: the bank in
    /// use holds `data` at the configured destination window, bytes that
    /// would run past the end of the bank are dropped, and everything else
    /// is as it was.
    pub open spec fn vram_dma_rel(self, post: LcdController, data: Seq<u8>) -> bool {
        &&& post == (LcdController { vram0: post.vram0, vram1: post.vram1, ..self })
        &&& (!self.vram_bank_one ==> post.vram1 == self.vram1 && post.vram0@.len()
            == self.vram0@.len() && forall|k: int|
            0 <= k < self.vram0@.len() ==> post.vram0@[k] == (if self.vram_dma_dst <= k
                < self.vram_dma_dst + data.len() {
                data[k - self.vram_dma_dst]
            } else {
                self.vram0@[k]
            }))
        &&& (self.vram_bank_one ==> post.vram0 == self.vram0 && post.vram1@.len()
            == self.vram1@.len() && forall|k: int|
            0 <= k < self.vram1@.len() ==> post.vram1@[k] == (if self.vram_dma_dst <= k
                < self.vram_dma_dst + data.len() {
                data[k - self.vram_dma_dst]
            } else {
                self.vram1@[k]
            }))
    }

    /// Copy a block into video RAM at the configured destination, as the
    /// synchronous VRAM DMA does; bytes that would run past the end of the
    /// bank are dropped.
    pub fn vram_dma(&mut self, data: &Vec<u8>)
        requires
            old(self).wf(),
        ensures
            final(self).wf(),
            old(self).vram_dma_rel(*final(self), data@),
    {
        let offset = self.vram_dma_dst as usize;
        let n = data.len();
        let mut i: usize = 0;
        while i < n
            invariant
                self.wf(),
                n == data@.len(),
                i <= n,
                offset == old(self).vram_dma_dst,
                offset <= 0x1FF0,
                *self == (LcdController { vram0: self.vram0, vram1: self.vram1, ..*old(self) }),
                !old(self).vram_bank_one ==> self.vram1 == old(self).vram1 && self.vram0@.len()
                    == old(self).vram0@.len() && forall|k: int|
                    0 <= k < old(self).vram0@.len() ==> self.vram0@[k] == (if offset <= k
                        < offset + i {
                        data@[k - offset]
                    } else {
                        old(self).vram0@[k]
                    }),
                old(self).vram_bank_one ==> self.vram0 == old(self).vram0 && self.vram1@.len()
                    == old(self).vram1@.len() && forall|k: int|
                    0 <= k < old(self).vram1@.len() ==> self.vram1@[k] == (if offset <= k
                        < offset + i {
                        data@[k - offset]
                    } else {
                        old(self).vram1@[k]
                    }),
            decreases data@.len() - i,
        {
            if i < VRAM_SIZE - offset {
                if self.vram_bank_one {
                    self.vram1.set(offset + i, data[i]);
                } else {
                    self.vram0.set(offset + i, data[i]);
                }
            }
            i = i + 1;
        }
    }

    /// Record a scheduled background transfer of `len` bytes; the
    /// peripheral-paced copy itself is outside this controller's pacing
    /// contract.
    pub fn vram_hblank_dma(&mut self, len: u16)
        requires
            old(self).wf(),
        ensures
            final(self).wf(),
            *final(self) == (LcdController { pending_hblank_dma: len, ..*old(self) }),
    {
        self.pending_hblank_dma = len;
    }

    /// The source address the VRAM DMA registers currently hold.
    pub fn vram_dma_source(&self) -> (r: u16)
        ensures
            r == self.vram_dma_src,
    {
        self.vram_dma_src
    }

    /// The two background tile sets the control register currently
    /// selects, one per video RAM bank.
    fn bg_tile_sets(&self) -> (r: (TileSet, TileSet))
        requires
            self.wf(),
        ensures
            r.0.wf(),
            r.1.wf(),
    {
        let (start, shift) = if bit(self.lcdc, 4) == 0 {
            (0x0800usize, true)
        } else {
            (0x0usize, false)
        };
        let t0 = copy_range(&self.vram0, start, 0x1000);
        let t1 = copy_range(&self.vram1, start, 0x1000);
        (TileSet::new(t0, shift), TileSet::new(t1, shift))
    }

    /// The background map selected by `flag`, with its attribute plane on
    /// colour hardware.
    fn bg_map(&self, flag: u8) -> (r: BackgroundMap)
        requires
            self.wf(),
        ensures
            r.wf(),
    {
        let tile_sets = self.bg_tile_sets();
        let start: usize = if flag == 1 {
            0x1C00
        } else {
            0x1800
        };
        let map_data = copy_range(&self.vram0, start, 0x400);
        let attribute_data = match self.mode {
            Mode::DMG => None,
            Mode::CGB => Some(copy_range(&self.vram1, start, 0x400)),
        };
        BackgroundMap::new(map_data, tile_sets.0, tile_sets.1, attribute_data)
    }

    /// The background pixels of the current scanline.
    fn bg_row(&self) -> (r: Vec<BGPixel>)
        requires
            self.wf(),
        ensures
            r@.len() == GAME_WIDTH,
            forall|i: int| 0 <= i < GAME_WIDTH ==> (#[trigger] r@[i]).wf(),
    {
        let bg_map = self.bg_map(bit(self.lcdc, 3));
        let bg_y = ((self.ly as usize) + (self.scy as usize)) % 256;
        let bg_row = bg_map.row(bg_y);
        let mut result: Vec<BGPixel> = Vec::new();
        let mut x: usize = 0;
        while x < GAME_WIDTH
            invariant
                x <= GAME_WIDTH,
                bg_row@.len() == 256,
                forall|i: int| 0 <= i < 256 ==> (#[trigger] bg_row@[i]).wf(),
                result@.len() == x,
                forall|i: int| 0 <= i < x ==> (#[trigger] result@[i]).wf(),
            decreases GAME_WIDTH - x,
        {
            let src = bg_row[(x + (self.scx as usize)) % 256];
            result.push(BGPixel { value: src.value, above_oam: src.above_oam,
                palette_number: src.palette_number });
            x = x + 1;
        }
        result
    }

    /// The window pixels of the current scanline, where the window covers
    /// it.
    fn window_row(&self) -> (r: Vec<Option<BGPixel>>)
        requires
            self.wf(),
        ensures
            r@.len() == GAME_WIDTH,
            forall|i: int|
                0 <= i < GAME_WIDTH && r@[i] is Some ==> (#[trigger] r@[i]).unwrap().wf(),
    {
        let mut result: Vec<Option<BGPixel>> = Vec::new();
        if bit(self.lcdc, 5) == 0 || self.wx as usize >= GAME_WIDTH + 7 || self.ly < self.wy {
            let mut x: usize = 0;
            while x < GAME_WIDTH
                invariant
                    x <= GAME_WIDTH,
                    result@.len() == x,
                    forall|i: int| 0 <= i < x ==> result@[i] is None,
                decreases GAME_WIDTH - x,
            {
                result.push(None);
                x = x + 1;
            }
            return result;
        }

        let map = self.bg_map(bit(self.lcdc, 6));
        let row = map.row((self.ly - self.wy) as usize);
        let wx = self.wx as usize;
        let mut x: usize = 0;
        while x < GAME_WIDTH
            invariant
                x <= GAME_WIDTH,
                row@.len() == 256,
                forall|i: int| 0 <= i < 256 ==> (#[trigger] row@[i]).wf(),
                wx < GAME_WIDTH + 7,
                result@.len() == x,
                forall|i: int|
                    0 <= i < x && result@[i] is Some ==> (#[trigger] result@[i]).unwrap().wf(),
            decreases GAME_WIDTH - x,
        {
            if x + 7 < wx {
                result.push(None);
            } else {
                let src = row[x + 7 - wx];
                result.push(Some(BGPixel { value: src.value, above_oam: src.above_oam,
                    palette_number: src.palette_number }));
            }
            x = x + 1;
        }
        result
    }

    /// The sprite height the control register selects.
    fn sprite_size(&self) -> (r: SpriteSize) {
        if bit(self.lcdc, 2) == 0 {
            SpriteSize::EightByEight
        } else {
            SpriteSize::EightBySixteen
        }
    }

    /// The sprite pixels of the current scanline.
    fn oam_row(&self) -> (r: Vec<Option<OamPixel>>)
        requires
            self.wf(),
        ensures
            r@.len() == GAME_WIDTH,
            forall|i: int|
                0 <= i < GAME_WIDTH && r@[i] is Some ==> (#[trigger] r@[i]).unwrap().wf(),
    {
        let mut result: Vec<Option<OamPixel>> = Vec::new();
        if bit(self.lcdc, 1) == 0 {
            let mut x: usize = 0;
            while x < GAME_WIDTH
                invariant
                    x <= GAME_WIDTH,
                    result@.len() == x,
                    forall|i: int| 0 <= i < x ==> result@[i] is None,
                decreases GAME_WIDTH - x,
            {
                result.push(None);
                x = x + 1;
            }
            return result;
        }

        let other0 = copy_range(&self.vram0, 0, 0x1000);
        let other1 = copy_range(&self.vram1, 0, 0x1000);
        let tile_set0 = TileSet::new(other0, false);
        let tile_set1 = TileSet::new(other1, false);
        let entries = OamEntries::new(self.mode, &self.oam, tile_set0, tile_set1,
            self.sprite_size());
        entries.row(self.ly)
    }

    /// Compose one scanline of the frame: window over background, sprites
    /// over both where their priority and transparency allow.
    fn fill_framebuffer(&self, frame_buffer: &mut Vec<Color>)
        requires
            self.wf(),
            self.ly <= 143,
            old(frame_buffer)@.len() == 160 * 144,
        ensures
            final(frame_buffer)@.len() == 160 * 144,
    {
        let bg_row = self.bg_row();
        let window_row = self.window_row();
        let oam_row = self.oam_row();
        let row_start = (self.ly as usize) * GAME_WIDTH;

        let mut x: usize = 0;
        while x < GAME_WIDTH
            invariant
                self.wf(),
                self.ly <= 143,
                row_start == self.ly * GAME_WIDTH,
                x <= GAME_WIDTH,
                bg_row@.len() == GAME_WIDTH,
                window_row@.len() == GAME_WIDTH,
                oam_row@.len() == GAME_WIDTH,
                forall|i: int| 0 <= i < GAME_WIDTH ==> (#[trigger] bg_row@[i]).wf(),
                forall|i: int|
                    0 <= i < GAME_WIDTH && window_row@[i] is Some ==> (
                    #[trigger] window_row@[i]).unwrap().wf(),
                forall|i: int|
                    0 <= i < GAME_WIDTH && oam_row@[i] is Some ==> (#[trigger] oam_row@[i])
                        .unwrap().wf(),
                frame_buffer@.len() == 160 * 144,
            decreases GAME_WIDTH - x,
        {
            let bg_pixel = match window_row[x] {
                Some(p) => p,
                None => bg_row[x],
            };
            let bg_color = self.bg_color(bg_pixel);
            let color = match oam_row[x] {
                None => bg_color,
                Some(pixel) => {
                    if pixel.above_background || bg_row[x].value == 0 {
                        if pixel.palette_number == 0 {
                            self.ob0_palette.color(pixel.value)
                        } else {
                            self.ob1_palette.color(pixel.value)
                        }
                    } else {
                        bg_color
                    }
                }
            };
            frame_buffer.set(row_start + x, color);
            x = x + 1;
        }
    }

    /// Map a background pixel through the palette hardware of the current
    /// revision.
    fn bg_color(&self, pixel: BGPixel) -> (r: Color)
        requires
            self.wf(),
            pixel.wf(),
    {
        match self.mode {
            Mode::DMG => self.bg_palette.color(pixel.value),
            Mode::CGB => self.bg_palette_manager.color(pixel),
        }
    }

    /// Render the whole current tile set, sixteen tiles to a row of the
    /// given buffer, for inspection.
    pub fn fill_tile_framebuffer(&self, tile_frame_buffer: &mut Vec<Color>)
        requires
            self.wf(),
            old(tile_frame_buffer)@.len() >= 128 * 128,
        ensures
            final(tile_frame_buffer)@.len() == old(tile_frame_buffer)@.len(),
    {
        let tile_sets = self.bg_tile_sets();
        let bg_tile_set = tile_sets.0;
        let mut i: usize = 0;
        while i < 256
            invariant
                self.wf(),
                bg_tile_set.wf(),
                tile_frame_buffer@.len() == old(tile_frame_buffer)@.len(),
                old(tile_frame_buffer)@.len() >= 128 * 128,
            decreases 256 - i,
        {
            let tile = bg_tile_set.tile(i as u8);
            let origin = (i / 16) * 128 * 8 + (i % 16) * 8;
            let mut j: usize = 0;
            while j < 8
                invariant
                    self.wf(),
                    tile.wf(),
                    i < 256,
                    origin == (i / 16) * 128 * 8 + (i % 16) * 8,
                    tile_frame_buffer@.len() == old(tile_frame_buffer)@.len(),
                    old(tile_frame_buffer)@.len() >= 128 * 128,
                decreases 8 - j,
            {
                let row = tile.row(j);
                let row_start = origin + 128 * j;
                let mut k: usize = 0;
                while k < 8
                    invariant
                        self.wf(),
                        i < 256,
                        j < 8,
                        origin == (i / 16) * 128 * 8 + (i % 16) * 8,
                        row_start == origin + 128 * j,
                        row@.len() == 8,
                        forall|m: int| 0 <= m < 8 ==> row@[m] < 4,
                        tile_frame_buffer@.len() == old(tile_frame_buffer)@.len(),
                        old(tile_frame_buffer)@.len() >= 128 * 128,
                    decreases 8 - k,
                {
                    let color = self.bg_palette.color(row[k]);
                    if row_start + k < tile_frame_buffer.len() {
                        tile_frame_buffer.set(row_start + k, color);
                    }
                    k = k + 1;
                }
                j = j + 1;
            }
            i = i + 1;
        }
    }

    /// Reads of video RAM, the sprite table and the display registers;
    /// other addresses are never routed here by the boot-time memory map.
    pub open spec fn read8(self, addr: u16) -> u8 {
        if VRAM_START <= addr <= VRAM_END {
            if self.vram_bank_one {
                self.vram1@[addr - VRAM_START]
            } else {
                self.vram0@[addr - VRAM_START]
            }
        } else if OAM_START <= addr <= OAM_END {
            self.oam@[addr - OAM_START]
        } else if addr == LCDC_ADDR {
            self.lcdc
        } else if addr == STAT_ADDR {
            if self.spec_display_enabled() {
                self.stat | 0x80
            } else {
                0x80
            }
        } else if addr == LY_ADDR {
            self.ly
        } else if addr == SCX_ADDR {
            self.scx
        } else if addr == SCY_ADDR {
            self.scy
        } else if addr == LYC_ADDR {
            self.lyc
        } else if addr == BGP_ADDR {
            self.bgp
        } else if addr == OBP0_ADDR {
            self.obp0
        } else if addr == OBP1_ADDR {
            self.obp1
        } else if addr == WY_ADDR {
            self.wy
        } else if addr == WX_ADDR {
            self.wx
        } else {
            0xFF
        }
    }

    pub fn get8(&self, addr: u16) -> (r: u8)
        requires
            self.wf(),
        ensures
            r == self.read8(addr),
    {
        if VRAM_START <= addr && addr <= VRAM_END {
            let idx = (addr - VRAM_START) as usize;
            if self.vram_bank_one {
                self.vram1[idx]
            } else {
                self.vram0[idx]
            }
        } else if OAM_START <= addr && addr <= OAM_END {
            self.oam[(addr - OAM_START) as usize]
        } else if addr == LCDC_ADDR {
            self.lcdc
        } else if addr == STAT_ADDR {
            if self.display_enabled() {
                self.stat | 0x80
            } else {
                0x80
            }
        } else if addr == LY_ADDR {
            self.ly
        } else if addr == SCX_ADDR {
            self.scx
        } else if addr == SCY_ADDR {
            self.scy
        } else if addr == LYC_ADDR {
            self.lyc
        } else if addr == BGP_ADDR {
            self.bgp
        } else if addr == OBP0_ADDR {
            self.obp0
        } else if addr == OBP1_ADDR {
            self.obp1
        } else if addr == WY_ADDR {
            self.wy
        } else if addr == WX_ADDR {
            self.wx
        } else {
            0xFF
        }
    }

    /// How a write relates the state before to the state after: video RAM
    /// and sprite-table stores are pinned down exactly, as are the plain
    /// register stores, the bank select, both palette ports of each colour
    /// palette and the four block-transfer source/destination registers.
    /// The scanline register is read-only; the status register takes only
    /// its interrupt-enable bits from the written byte, its mode and
    /// coincidence bits being read-only; and a control write that switches
    /// the display off resets the scanline machine.
    pub open spec fn write8_rel(self, post: LcdController, addr: u16, byte: u8) -> bool {
        &&& post.wf()
        &&& post.mode == self.mode
        &&& (addr == SCY_ADDR ==> post == (LcdController { scy: byte, ..self }))
        &&& (addr == SCX_ADDR ==> post == (LcdController { scx: byte, ..self }))
        &&& (addr == LYC_ADDR ==> post == (LcdController { lyc: byte, ..self }))
        &&& (addr == WY_ADDR ==> post == (LcdController { wy: byte, ..self }))
        &&& (addr == WX_ADDR ==> post == (LcdController { wx: byte, ..self }))
        &&& (addr == BGP_ADDR ==> post == (LcdController {
            bgp: byte,
            bg_palette: (Palette { palette: byte }),
            ..self
        }))
        &&& (addr == OBP0_ADDR ==> post == (LcdController {
            obp0: byte,
            ob0_palette: (Palette { palette: byte }),
            ..self
        }))
        &&& (addr == OBP1_ADDR ==> post == (LcdController {
            obp1: byte,
            ob1_palette: (Palette { palette: byte }),
            ..self
        }))
        &&& (addr == VBK_ADDR ==> post == (LcdController {
            vram_bank_one: spec_bit(byte, 0) == 1,
            ..self
        }))
        &&& (addr == BGPI_ADDR ==> post == (LcdController {
            bg_palette_manager: (PaletteManager {
                index: (byte & 0x3F) as usize,
                auto_increment: spec_bit(byte, 7) == 1,
                data: self.bg_palette_manager.data,
            }),
            ..self
        }))
        &&& (addr == BGPD_ADDR ==> post == (LcdController {
            bg_palette_manager: post.bg_palette_manager,
            ..self
        }) && palette_data_write(self.bg_palette_manager, post.bg_palette_manager, byte))
        &&& (addr == OBPI_ADDR ==> post == (LcdController {
            ob_palette_manager: (PaletteManager {
                index: (byte & 0x3F) as usize,
                auto_increment: spec_bit(byte, 7) == 1,
                data: self.ob_palette_manager.data,
            }),
            ..self
        }))
        &&& (addr == OBPD_ADDR ==> post == (LcdController {
            ob_palette_manager: post.ob_palette_manager,
            ..self
        }) && palette_data_write(self.ob_palette_manager, post.ob_palette_manager, byte))
        &&& (addr == HDMA1_ADDR ==> post == (LcdController {
            vram_dma_src: ((byte as u16) << 8) | (self.vram_dma_src & 0xF0),
            ..self
        }))
        &&& (addr == HDMA2_ADDR ==> post == (LcdController {
            vram_dma_src: (self.vram_dma_src & 0xFF00) | ((byte as u16) & 0xF0),
            ..self
        }))
        &&& (addr == HDMA3_ADDR ==> post == (LcdController {
            vram_dma_dst: (((byte as u16) << 8) & 0x1F00) | (self.vram_dma_dst & 0xF0),
            ..self
        }))
        &&& (addr == HDMA4_ADDR ==> post == (LcdController {
            vram_dma_dst: (self.vram_dma_dst & 0x1F00) | ((byte as u16) & 0xF0),
            ..self
        }))
        &&& (addr == LY_ADDR ==> post == self)
        &&& (addr == STAT_ADDR ==> post == (LcdController {
            stat: (self.stat & 0x07) | (byte & 0x78),
            ..self
        }))
        &&& (addr == LCDC_ADDR ==> post == (LcdController {
            lcdc: byte,
            ly: if self.spec_display_enabled() && spec_bit(byte, 7) == 0 {
                0u8
            } else {
                self.ly
            },
            state: if self.spec_display_enabled() && spec_bit(byte, 7) == 0 {
                LcdState { period: Period::OAMSearch, clocks_left: 20, ly: 0 }
            } else {
                self.state
            },
            ..self
        }))
        &&& (VRAM_START <= addr <= VRAM_END && !self.vram_bank_one ==> post == (LcdController {
            vram0: post.vram0,
            ..self
        }) && post.vram0@ == self.vram0@.update(addr - VRAM_START, byte))
        &&& (VRAM_START <= addr <= VRAM_END && self.vram_bank_one ==> post == (LcdController {
            vram1: post.vram1,
            ..self
        }) && post.vram1@ == self.vram1@.update(addr - VRAM_START, byte))
        &&& (OAM_START <= addr <= OAM_END ==> post == (LcdController { oam: post.oam, ..self })
            && post.oam@ == self.oam@.update(addr - OAM_START, byte))
    }

    /// Writes to video RAM, the sprite table and the display registers.
    /// Switching the display off resets the scanline machine.
    pub fn set8(&mut self, addr: u16, byte: u8)
        requires
            old(self).wf(),
        ensures
            final(self).wf(),
            old(self).write8_rel(*final(self), addr, byte),
    {
        if VRAM_START <= addr && addr <= VRAM_END {
            let idx = (addr - VRAM_START) as usize;
            if self.vram_bank_one {
                self.vram1.set(idx, byte);
            } else {
                self.vram0.set(idx, byte);
            }
        } else if OAM_START <= addr && addr <= OAM_END {
            self.oam.set((addr - OAM_START) as usize, byte);
        } else if addr == VBK_ADDR {
            self.vram_bank_one = bit(byte, 0) == 1;
        } else if addr == LCDC_ADDR {
            let display_was_enabled = self.display_enabled();
            self.lcdc = byte;
            proof {
                assert((byte >> 7) & 1 == 0 || (byte >> 7) & 1 == 1) by (bit_vector);
            }
            if display_was_enabled && !self.display_enabled() {
                self.ly = 0;
                self.state = LcdState::init();
            }
        } else if addr == STAT_ADDR {
            self.stat = (self.stat & 0x07) | (byte & 0x78);
        } else if addr == BGP_ADDR {
            self.bgp = byte;
            self.bg_palette = Palette::new(byte);
        } else if addr == OBP0_ADDR {
            self.obp0 = byte;
            self.ob0_palette = Palette::new(byte);
        } else if addr == OBP1_ADDR {
            self.obp1 = byte;
            self.ob1_palette = Palette::new(byte);
        } else if addr == BGPI_ADDR {
            self.bg_palette_manager.set_index(byte);
        } else if addr == BGPD_ADDR {
            self.bg_palette_manager.set8(byte);
        } else if addr == OBPI_ADDR {
            self.ob_palette_manager.set_index(byte);
        } else if addr == OBPD_ADDR {
            self.ob_palette_manager.set8(byte);
        } else if addr == SCY_ADDR {
            self.scy = byte;
        } else if addr == SCX_ADDR {
            self.scx = byte;
        } else if addr == LYC_ADDR {
            self.lyc = byte;
        } else if addr == WX_ADDR {
            self.wx = byte;
        } else if addr == WY_ADDR {
            self.wy = byte;
        } else if addr == HDMA1_ADDR {
            self.vram_dma_src = ((byte as u16) << 8) | (self.vram_dma_src & 0xF0);
        } else if addr == HDMA2_ADDR {
            self.vram_dma_src = (self.vram_dma_src & 0xFF00) | ((byte as u16) & 0xF0);
        } else if addr == HDMA3_ADDR {
            let dst = (((byte as u16) << 8) & 0x1F00) | (self.vram_dma_dst & 0xF0);
            proof {
                let b = byte;
                let d = old(self).vram_dma_dst;
                assert(d <= 0x1FF0 ==> ((((b as u16) << 8) & 0x1F00) | (d & 0xF0)) <= 0x1FF0)
                    by (bit_vector);
            }
            self.vram_dma_dst = dst;
        } else if addr == HDMA4_ADDR {
            let dst = (self.vram_dma_dst & 0x1F00) | ((byte as u16) & 0xF0);
            proof {
                let b = byte;
                let d = old(self).vram_dma_dst;
                assert(d <= 0x1FF0 ==> ((d & 0x1F00) | ((b as u16) & 0xF0)) <= 0x1FF0)
                    by (bit_vector);
            }
            self.vram_dma_dst = dst;
        }
    }
}

/// Whether two scanline phases are the same.
fn period_eq(a: Period, b: Period) -> (r: bool)
    ensures
        r == (a == b),
{
    match (a, b) {
        (Period::OAMSearch, Period::OAMSearch) => true,
        (Period::PixelTransfer, Period::PixelTransfer) => true,
        (Period::HBlank, Period::HBlank) => true,
        (Period::VBlank, Period::VBlank) => true,
        _ => false,
    }
}

/// An owned copy of the bytes of `v` from `start` up to `end`.
pub fn copy_slice_range(v: &[u8], start: usize, end: usize) -> (r: Vec<u8>)
    requires
        start <= end <= v@.len(),
    ensures
        r@ == v@.subrange(start as int, end as int),
{
    let mut out: Vec<u8> = Vec::new();
    let mut i: usize = start;
    while i < end
        invariant
            start <= i <= end,
            end <= v@.len(),
            out@ == v@.subrange(start as int, i as int),
        decreases end - i,
    {
        out.push(*vstd::slice::slice_index_get(v, i));
        proof {
            assert(v@.subrange(start as int, i + 1) =~= v@.subrange(start as int, i as int)
                .push(v@[i as int]));
        }
        i = i + 1;
    }
    out
}

/// An owned copy of `len` bytes of `v` starting at `start`.
pub fn copy_range(v: &Vec<u8>, start: usize, len: usize) -> (r: Vec<u8>)
    requires
        start + len <= v@.len(),
    ensures
        r@.len() == len,
        forall|i: int| 0 <= i < len ==> r@[i] == v@[start + i],
{
    let n = v.len();
    let mut out: Vec<u8> = Vec::new();
    let mut i: usize = 0;
    while i < len
        invariant
            i <= len,
            n == v@.len(),
            start + len <= n,
            out@.len() == i,
            forall|j: int| 0 <= j < i ==> out@[j] == v@[start + j],
        decreases len - i,
    {
        out.push(v[start + i]);
        i = i + 1;
    }
    out
}

} // verus!
