//! The cartridge bank controllers: the no-banking cartridge and the three
//! bank-switch chip families, each with its own control-register semantics.
//! Control writes land in the four quadrants of the low half of the address
//! space; the banked RAM window sits at 0xA000-0xBFFF.

use vstd::prelude::*;

verus! {

/// Start of the banked cartridge RAM window.
pub const RAM_WINDOW_START: u16 = 0xA000;

/// End of the banked cartridge RAM window, inclusive.
pub const RAM_WINDOW_END: u16 = 0xBFFF;

#[derive(Debug, Clone, Copy, PartialEq, Eq, Structural)]
pub enum MbcType {
    RomOnly,
    Mbc1,
    Mbc3,
    Mbc5,
}

/// The addressing mode of the chips that share one register file between
/// ROM and RAM banking.
#[derive(Debug, Clone, Copy, PartialEq, Eq, Structural)]
pub enum BankMode {
    Rom,
    Ram,
}

/// A bank controller: the chip family decides how control writes select
/// the visible ROM and RAM banks.
pub enum Mbc {
    RomOnly { ram_bank: Vec<u8> },
    Mbc1 {
        five_bit_reg: u8,
        two_bit_reg: u8,
        ram_bank_enabled: bool,
        mode: BankMode,
        ram: Vec<u8>,
    },
    Mbc3 { ram_rtc_bank_enabled: bool, rom_bank_reg: u8, ram_rtc_bank_reg: u8, ram: Vec<u8> },
    Mbc5 {
        rom_bank_num: u16,
        ram_bank_num: u8,
        ram_bank_enabled: bool,
        mode: BankMode,
        ram: Vec<u8>,
    },
}

/// Header bytes this library recognizes as a supported banking chip.
pub open spec fn spec_mbc_supported(byte: u8) -> bool {
    byte == 0 || 1 <= byte <= 3 || 5 <= byte <= 6 || 0xF <= byte <= 0x13 || 0x19 <= byte
        <= 0x1E
}

pub fn mbc_supported(byte: u8) -> (r: bool)
    ensures
        r == spec_mbc_supported(byte),
{
    byte == 0 || (1 <= byte && byte <= 3) || (5 <= byte && byte <= 6) || (0xF <= byte && byte
        <= 0x13) || (0x19 <= byte && byte <= 0x1E)
}

/// The chip family a supported header byte selects.
pub open spec fn spec_mbc_kind(byte: u8) -> MbcType {
    if byte == 0 {
        MbcType::RomOnly
    } else if 1 <= byte <= 6 {
        MbcType::Mbc1
    } else if 0xF <= byte <= 0x13 {
        MbcType::Mbc3
    } else {
        MbcType::Mbc5
    }
}

/// A controller in its power-on state: every bank register zero, the RAM
/// enable latch off, and the shared-register chips in ROM addressing mode.
pub open spec fn spec_mbc_fresh(m: Mbc) -> bool {
    match m {
        Mbc::RomOnly { .. } => true,
        Mbc::Mbc1 { five_bit_reg, two_bit_reg, ram_bank_enabled, mode, .. } => five_bit_reg
            == 0 && two_bit_reg == 0 && !ram_bank_enabled && mode is Rom,
        Mbc::Mbc3 { ram_rtc_bank_enabled, rom_bank_reg, ram_rtc_bank_reg, .. } => rom_bank_reg
            == 0 && ram_rtc_bank_reg == 0 && !ram_rtc_bank_enabled,
        Mbc::Mbc5 { rom_bank_num, ram_bank_num, ram_bank_enabled, mode, .. } => rom_bank_num
            == 0 && ram_bank_num == 0 && !ram_bank_enabled && mode is Rom,
    }
}

/// Build the controller a cartridge header byte calls for; an unrecognized
/// byte is a boot-time configuration error that the caller rules out. A
/// fresh controller starts with every bank register zero, the RAM latch
/// off and the shared-register chips in ROM addressing mode.
pub fn build_mbc(byte: u8) -> (r: Mbc)
    requires
        spec_mbc_supported(byte),
    ensures
        r.wf(),
        r.spec_type() == spec_mbc_kind(byte),
        r.spec_rom_bank_num() == (if spec_mbc_kind(byte) is Mbc5 { 0int } else { 1 }),
        spec_mbc_fresh(r),
        r.spec_ram()@.len() == (if r is RomOnly { 0x2000int } else { 0x8000 }),
        forall|i: int|
            0 <= i < r.spec_ram()@.len() ==> r.spec_ram()@[i] == (if r is Mbc5 {
                0xFFu8
            } else {
                0
            }),
{
    if byte == 0 {
        Mbc::RomOnly { ram_bank: crate::devices::filled_vec(0x2000, 0) }
    } else if byte <= 6 {
        Mbc::Mbc1 {
            five_bit_reg: 0,
            two_bit_reg: 0,
            ram_bank_enabled: false,
            mode: BankMode::Rom,
            ram: crate::devices::filled_vec(0x8000, 0),
        }
    } else if byte <= 0x13 {
        Mbc::Mbc3 {
            ram_rtc_bank_enabled: false,
            rom_bank_reg: 0,
            ram_rtc_bank_reg: 0,
            ram: crate::devices::filled_vec(0x8000, 0),
        }
    } else {
        Mbc::Mbc5 {
            rom_bank_num: 0,
            ram_bank_num: 0,
            ram_bank_enabled: false,
            mode: BankMode::Rom,
            ram: crate::devices::filled_vec(0x8000, 0xFF),
        }
    }
}

impl Mbc {
    pub open spec fn wf(self) -> bool {
        match self {
            Mbc::RomOnly { ram_bank } => ram_bank@.len() == 0x2000,
            Mbc::Mbc1 { five_bit_reg, two_bit_reg, ram, .. } => five_bit_reg <= 0x1F
                && two_bit_reg <= 3 && ram@.len() == 0x8000,
            Mbc::Mbc3 { rom_bank_reg, ram, .. } => rom_bank_reg <= 0x7F && ram@.len() == 0x8000,
            Mbc::Mbc5 { rom_bank_num, ram_bank_num, ram, .. } => rom_bank_num <= 0x1FF
                && ram_bank_num <= 3 && ram@.len() == 0x8000,
        }
    }

    pub open spec fn spec_type(self) -> MbcType {
        match self {
            Mbc::RomOnly { .. } => MbcType::RomOnly,
            Mbc::Mbc1 { .. } => MbcType::Mbc1,
            Mbc::Mbc3 { .. } => MbcType::Mbc3,
            Mbc::Mbc5 { .. } => MbcType::Mbc5,
        }
    }

    pub fn mbc_type(&self) -> (r: MbcType)
        ensures
            r == self.spec_type(),
    {
        match self {
            Mbc::RomOnly { .. } => MbcType::RomOnly,
            Mbc::Mbc1 { .. } => MbcType::Mbc1,
            Mbc::Mbc3 { .. } => MbcType::Mbc3,
            Mbc::Mbc5 { .. } => MbcType::Mbc5,
        }
    }

    /// The effective ROM bank mapped into the switchable window. The first
    /// family remaps a computed bank of 0x00, 0x20, 0x40 or 0x60 one up,
    /// because those values alias bank zero and are unreachable.
    pub open spec fn spec_rom_bank_num(self) -> int {
        match self {
            Mbc::RomOnly { .. } => 1,
            Mbc::Mbc1 { five_bit_reg, two_bit_reg, mode, .. } => {
                match mode {
                    BankMode::Rom => {
                        let n = two_bit_reg * 32 + five_bit_reg;
                        if n == 0x00 || n == 0x20 || n == 0x40 || n == 0x60 {
                            n + 1
                        } else {
                            n as int
                        }
                    }
                    BankMode::Ram => 1,
                }
            }
            Mbc::Mbc3 { rom_bank_reg, .. } => if rom_bank_reg == 0 {
                1
            } else {
                rom_bank_reg as int
            },
            Mbc::Mbc5 { rom_bank_num, mode, .. } => {
                match mode {
                    BankMode::Rom => rom_bank_num as int,
                    BankMode::Ram => 1,
                }
            }
        }
    }

    pub fn rom_bank_num(&self) -> (r: usize)
        requires
            self.wf(),
        ensures
            r == self.spec_rom_bank_num(),
            r <= 0x1FF,
    {
        match self {
            Mbc::RomOnly { .. } => 1,
            Mbc::Mbc1 { five_bit_reg, two_bit_reg, mode, .. } => {
                match mode {
                    BankMode::Rom => {
                        let n = (*two_bit_reg as usize) * 32 + (*five_bit_reg as usize);
                        if n == 0x00 || n == 0x20 || n == 0x40 || n == 0x60 {
                            n + 1
                        } else {
                            n
                        }
                    }
                    BankMode::Ram => 1,
                }
            }
            Mbc::Mbc3 { rom_bank_reg, .. } => if *rom_bank_reg == 0 {
                1
            } else {
                *rom_bank_reg as usize
            },
            Mbc::Mbc5 { rom_bank_num, mode, .. } => {
                match mode {
                    BankMode::Rom => *rom_bank_num as usize,
                    BankMode::Ram => 1,
                }
            }
        }
    }

    /// Offset of the currently selected RAM bank inside the backing store.
    pub open spec fn spec_ram_offset(self) -> int {
        match self {
            Mbc::RomOnly { .. } => 0,
            Mbc::Mbc1 { two_bit_reg, mode, .. } => match mode {
                BankMode::Rom => 0,
                BankMode::Ram => two_bit_reg * 0x2000,
            },
            Mbc::Mbc3 { ram_rtc_bank_reg, .. } => if ram_rtc_bank_reg <= 3 {
                ram_rtc_bank_reg * 0x2000
            } else {
                0
            },
            Mbc::Mbc5 { ram_bank_num, mode, .. } => match mode {
                BankMode::Rom => 0,
                BankMode::Ram => ram_bank_num * 0x2000,
            },
        }
    }

    /// The byte a read of the RAM window returns. The third family reserves
    /// the whole extended selector range above three for clock registers,
    /// which read as zero and absorb writes: a deliberate simplification of
    /// the real-time-clock hardware. This covers every selector value above
    /// three, also the ones no clock register answers to: a mis-selected
    /// register window is defined to read zero and drop writes rather than
    /// being treated as a fatal fault.
    pub open spec fn spec_get8(self, addr: u16) -> u8 {
        match self {
            Mbc::RomOnly { ram_bank } => ram_bank@[addr - RAM_WINDOW_START],
            Mbc::Mbc1 { ram, .. } => ram@[self.spec_ram_offset() + addr - RAM_WINDOW_START],
            Mbc::Mbc3 { ram_rtc_bank_reg, ram, .. } => if ram_rtc_bank_reg <= 3 {
                ram@[self.spec_ram_offset() + addr - RAM_WINDOW_START]
            } else {
                0
            },
            Mbc::Mbc5 { ram, .. } => ram@[self.spec_ram_offset() + addr - RAM_WINDOW_START],
        }
    }

    pub fn get8(&self, addr: u16) -> (r: u8)
        requires
            self.wf(),
            RAM_WINDOW_START <= addr <= RAM_WINDOW_END,
        ensures
            r == self.spec_get8(addr),
    {
        let idx = (addr - RAM_WINDOW_START) as usize;
        match self {
            Mbc::RomOnly { ram_bank } => ram_bank[idx],
            Mbc::Mbc1 { two_bit_reg, mode, ram, .. } => {
                let offset: usize = match mode {
                    BankMode::Rom => 0,
                    BankMode::Ram => (*two_bit_reg as usize) * 0x2000,
                };
                ram[offset + idx]
            }
            Mbc::Mbc3 { ram_rtc_bank_reg, ram, .. } => {
                if *ram_rtc_bank_reg <= 3 {
                    let offset = (*ram_rtc_bank_reg as usize) * 0x2000;
                    ram[offset + idx]
                } else {
                    0
                }
            }
            Mbc::Mbc5 { ram_bank_num, mode, ram, .. } => {
                let offset: usize = match mode {
                    BankMode::Rom => 0,
                    BankMode::Ram => (*ram_bank_num as usize) * 0x2000,
                };
                ram[offset + idx]
            }
        }
    }

    /// The register file after a control write (an address at or below
    /// 0x7FFF); the backing RAM is untouched and carried over. The RAM
    /// enable latch is set exactly when the written byte's low nibble is
    /// 0xA, on every chip family.
    pub open spec fn spec_control_write(self, addr: u16, byte: u8) -> Mbc {
        match self {
            Mbc::RomOnly { ram_bank } => Mbc::RomOnly { ram_bank },
            Mbc::Mbc1 { five_bit_reg, two_bit_reg, ram_bank_enabled, mode, ram } => {
                if addr <= 0x1FFF {
                    Mbc::Mbc1 {
                        five_bit_reg,
                        two_bit_reg,
                        ram_bank_enabled: byte & 0x0F == 0x0A,
                        mode,
                        ram,
                    }
                } else if addr <= 0x3FFF {
                    Mbc::Mbc1 {
                        five_bit_reg: byte & 0x1F,
                        two_bit_reg,
                        ram_bank_enabled,
                        mode,
                        ram,
                    }
                } else if addr <= 0x5FFF {
                    Mbc::Mbc1 {
                        five_bit_reg,
                        two_bit_reg: byte & 0x03,
                        ram_bank_enabled,
                        mode,
                        ram,
                    }
                } else {
                    Mbc::Mbc1 {
                        five_bit_reg,
                        two_bit_reg,
                        ram_bank_enabled,
                        mode: if byte & 0x1 == 0 {
                            BankMode::Rom
                        } else {
                            BankMode::Ram
                        },
                        ram,
                    }
                }
            }
            Mbc::Mbc3 { ram_rtc_bank_enabled, rom_bank_reg, ram_rtc_bank_reg, ram } => {
                if addr <= 0x1FFF {
                    Mbc::Mbc3 {
                        ram_rtc_bank_enabled: byte & 0x0F == 0x0A,
                        rom_bank_reg,
                        ram_rtc_bank_reg,
                        ram,
                    }
                } else if addr <= 0x3FFF {
                    Mbc::Mbc3 {
                        ram_rtc_bank_enabled,
                        rom_bank_reg: byte & 0x7F,
                        ram_rtc_bank_reg,
                        ram,
                    }
                } else if addr <= 0x5FFF {
                    Mbc::Mbc3 {
                        ram_rtc_bank_enabled,
                        rom_bank_reg,
                        ram_rtc_bank_reg: byte,
                        ram,
                    }
                } else {
                    Mbc::Mbc3 { ram_rtc_bank_enabled, rom_bank_reg, ram_rtc_bank_reg, ram }
                }
            }
            Mbc::Mbc5 { rom_bank_num, ram_bank_num, ram_bank_enabled, mode, ram } => {
                if addr <= 0x1FFF {
                    Mbc::Mbc5 {
                        rom_bank_num,
                        ram_bank_num,
                        ram_bank_enabled: byte & 0x0F == 0x0A,
                        mode,
                        ram,
                    }
                } else if addr <= 0x2FFF {
                    Mbc::Mbc5 {
                        rom_bank_num: (rom_bank_num & 0x100) | byte as u16,
                        ram_bank_num,
                        ram_bank_enabled,
                        mode,
                        ram,
                    }
                } else if addr <= 0x3FFF {
                    Mbc::Mbc5 {
                        rom_bank_num: (((byte as u16) & 0x1) << 8) | (rom_bank_num & 0xFF),
                        ram_bank_num,
                        ram_bank_enabled,
                        mode,
                        ram,
                    }
                } else if addr <= 0x5FFF {
                    Mbc::Mbc5 {
                        rom_bank_num,
                        ram_bank_num: byte & 0x03,
                        ram_bank_enabled,
                        mode,
                        ram,
                    }
                } else {
                    Mbc::Mbc5 {
                        rom_bank_num,
                        ram_bank_num,
                        ram_bank_enabled,
                        mode: if byte & 0x1 == 0 {
                            BankMode::Rom
                        } else {
                            BankMode::Ram
                        },
                        ram,
                    }
                }
            }
        }
    }

    /// How a write relates the state before to the state after: a control
    /// write updates the register file, a RAM-window write stores into the
    /// selected bank (except where the chip has no writable RAM there or a
    /// clock register is selected, which absorb the byte).
    pub open spec fn write8_rel(self, post: Mbc, addr: u16, byte: u8) -> bool {
        if addr <= 0x7FFF {
            post == self.spec_control_write(addr, byte)
        } else {
            match self {
                Mbc::RomOnly { .. } => post == self,
                Mbc::Mbc1 { five_bit_reg, two_bit_reg, ram_bank_enabled, mode, ram } => post
                    == (Mbc::Mbc1 {
                    five_bit_reg,
                    two_bit_reg,
                    ram_bank_enabled,
                    mode,
                    ram: post.spec_ram(),
                }) && post.spec_ram()@ == ram@.update(
                    self.spec_ram_offset() + addr - RAM_WINDOW_START, byte),
                Mbc::Mbc3 { ram_rtc_bank_enabled, rom_bank_reg, ram_rtc_bank_reg, ram } => {
                    if ram_rtc_bank_reg <= 3 {
                        post == (Mbc::Mbc3 {
                            ram_rtc_bank_enabled,
                            rom_bank_reg,
                            ram_rtc_bank_reg,
                            ram: post.spec_ram(),
                        }) && post.spec_ram()@ == ram@.update(
                            self.spec_ram_offset() + addr - RAM_WINDOW_START, byte)
                    } else {
                        post == self
                    }
                }
                Mbc::Mbc5 { rom_bank_num, ram_bank_num, ram_bank_enabled, mode, ram } => post
                    == (Mbc::Mbc5 {
                    rom_bank_num,
                    ram_bank_num,
                    ram_bank_enabled,
                    mode,
                    ram: post.spec_ram(),
                }) && post.spec_ram()@ == ram@.update(
                    self.spec_ram_offset() + addr - RAM_WINDOW_START, byte),
            }
        }
    }

    /// The backing RAM store of the controller.
    pub open spec fn spec_ram(self) -> Vec<u8> {
        match self {
            Mbc::RomOnly { ram_bank } => ram_bank,
            Mbc::Mbc1 { ram, .. } => ram,
            Mbc::Mbc3 { ram, .. } => ram,
            Mbc::Mbc5 { ram, .. } => ram,
        }
    }

    pub fn set8(&mut self, addr: u16, byte: u8)
        requires
            old(self).wf(),
            addr <= 0x7FFF || RAM_WINDOW_START <= addr <= RAM_WINDOW_END,
        ensures
            final(self).wf(),
            old(self).write8_rel(*final(self), addr, byte),
    {
        if addr <= 0x7FFF {
            match self {
                Mbc::RomOnly { .. } => (),
                Mbc::Mbc1 { five_bit_reg, two_bit_reg, ram_bank_enabled, mode, .. } => {
                    proof {
                        assert(byte & 0x1F <= 0x1F && byte & 0x03 <= 3) by (bit_vector);
                    }
                    if addr <= 0x1FFF {
                        *ram_bank_enabled = byte & 0x0F == 0x0A;
                    } else if addr <= 0x3FFF {
                        *five_bit_reg = byte & 0x1F;
                    } else if addr <= 0x5FFF {
                        *two_bit_reg = byte & 0x03;
                    } else {
                        *mode = if byte & 0x1 == 0 {
                            BankMode::Rom
                        } else {
                            BankMode::Ram
                        };
                    }
                }
                Mbc::Mbc3 { ram_rtc_bank_enabled, rom_bank_reg, ram_rtc_bank_reg, .. } => {
                    proof {
                        assert(byte & 0x7F <= 0x7F) by (bit_vector);
                    }
                    if addr <= 0x1FFF {
                        *ram_rtc_bank_enabled = byte & 0x0F == 0x0A;
                    } else if addr <= 0x3FFF {
                        *rom_bank_reg = byte & 0x7F;
                    } else if addr <= 0x5FFF {
                        *ram_rtc_bank_reg = byte;
                    }
                }
                Mbc::Mbc5 { rom_bank_num, ram_bank_num, ram_bank_enabled, mode, .. } => {
                    proof {
                        assert(byte & 0x03 <= 3) by (bit_vector);
                    }
                    if addr <= 0x1FFF {
                        *ram_bank_enabled = byte & 0x0F == 0x0A;
                    } else if addr <= 0x2FFF {
                        *rom_bank_num = (*rom_bank_num & 0x100) | byte as u16;
                        proof {
                            let pre = old(self)->Mbc5_rom_bank_num;
                            assert(pre <= 0x1FF ==> (pre & 0x100) | byte as u16 <= 0x1FF)
                                by (bit_vector);
                        }
                    } else if addr <= 0x3FFF {
                        *rom_bank_num = (((byte as u16) & 0x1) << 8) | (*rom_bank_num & 0xFF);
                        proof {
                            let pre = old(self)->Mbc5_rom_bank_num;
                            assert((((byte as u16) & 0x1) << 8) | (pre & 0xFF) <= 0x1FF)
                                by (bit_vector);
                        }
                    } else if addr <= 0x5FFF {
                        *ram_bank_num = byte & 0x03;
                    } else {
                        *mode = if byte & 0x1 == 0 {
                            BankMode::Rom
                        } else {
                            BankMode::Ram
                        };
                    }
                }
            }
        } else {
            let idx = (addr - RAM_WINDOW_START) as usize;
            match self {
                Mbc::RomOnly { .. } => (),
                Mbc::Mbc1 { two_bit_reg, mode, ram, .. } => {
                    let offset: usize = match mode {
                        BankMode::Rom => 0,
                        BankMode::Ram => (*two_bit_reg as usize) * 0x2000,
                    };
                    ram.set(offset + idx, byte);
                }
                Mbc::Mbc3 { ram_rtc_bank_reg, ram, .. } => {
                    if *ram_rtc_bank_reg <= 3 {
                        let offset = (*ram_rtc_bank_reg as usize) * 0x2000;
                        ram.set(offset + idx, byte);
                    }
                }
                Mbc::Mbc5 { ram_bank_num, mode, ram, .. } => {
                    let offset: usize = match mode {
                        BankMode::Rom => 0,
                        BankMode::Ram => (*ram_bank_num as usize) * 0x2000,
                    };
                    ram.set(offset + idx, byte);
                }
            }
        }
    }

    /// A flat copy of the battery RAM, for persistence; the no-banking
    /// cartridge persists nothing.
    pub fn dump_ram(&self) -> (r: Vec<u8>)
        ensures
            self is RomOnly ==> r@.len() == 0,
            !(self is RomOnly) ==> r@ == self.spec_ram()@,
    {
        match self {
            Mbc::RomOnly { .. } => Vec::new(),
            Mbc::Mbc1 { ram, .. } => clone_bytes(ram),
            Mbc::Mbc3 { ram, .. } => clone_bytes(ram),
            Mbc::Mbc5 { ram, .. } => clone_bytes(ram),
        }
    }

    /// Restore battery RAM from a flat dump of the size `dump_ram` makes;
    /// the no-banking cartridge ignores it.
    pub fn load_ram(&mut self, data: &[u8])
        requires
            old(self).wf(),
            data@.len() == 0x8000 || (*old(self)) is RomOnly,
        ensures
            final(self).wf(),
            final(self).spec_type() == old(self).spec_type(),
            (*old(self)) is RomOnly ==> *final(self) == *old(self),
            !((*old(self)) is RomOnly) ==> final(self).spec_ram()@ == data@ && *final(self) == old(
                self).update_ram(final(self).spec_ram()),
    {
        match self {
            Mbc::RomOnly { .. } => (),
            Mbc::Mbc1 { ram, .. } => {
                *ram = bytes_of_slice(data);
            }
            Mbc::Mbc3 { ram, .. } => {
                *ram = bytes_of_slice(data);
            }
            Mbc::Mbc5 { ram, .. } => {
                *ram = bytes_of_slice(data);
            }
        }
    }

    /// The same register file over a different backing store.
    pub open spec fn update_ram(self, new_ram: Vec<u8>) -> Mbc {
        match self {
            Mbc::RomOnly { .. } => Mbc::RomOnly { ram_bank: new_ram },
            Mbc::Mbc1 { five_bit_reg, two_bit_reg, ram_bank_enabled, mode, .. } => Mbc::Mbc1 {
                five_bit_reg,
                two_bit_reg,
                ram_bank_enabled,
                mode,
                ram: new_ram,
            },
            Mbc::Mbc3 { ram_rtc_bank_enabled, rom_bank_reg, ram_rtc_bank_reg, .. } => Mbc::Mbc3 {
                ram_rtc_bank_enabled,
                rom_bank_reg,
                ram_rtc_bank_reg,
                ram: new_ram,
            },
            Mbc::Mbc5 { rom_bank_num, ram_bank_num, ram_bank_enabled, mode, .. } => Mbc::Mbc5 {
                rom_bank_num,
                ram_bank_num,
                ram_bank_enabled,
                mode,
                ram: new_ram,
            },
        }
    }
}

/// An owned copy of a byte vector.
pub fn clone_bytes(v: &Vec<u8>) -> (r: Vec<u8>)
    ensures
        r@ == v@,
{
    let mut out: Vec<u8> = Vec::new();
    let mut i: usize = 0;
    while i < v.len()
        invariant
            i <= v@.len(),
            out@ == v@.subrange(0, i as int),
        decreases v@.len() - i,
    {
        out.push(v[i]);
        i = i + 1;
    }
    proof {
        assert(v@.subrange(0, v@.len() as int) =~= v@);
    }
    out
}

/// An owned copy of a byte slice.
pub fn bytes_of_slice(data: &[u8]) -> (r: Vec<u8>)
    ensures
        r@ == data@,
{
    let mut out: Vec<u8> = Vec::new();
    let mut i: usize = 0;
    while i < data.len()
        invariant
            i <= data@.len(),
            out@ == data@.subrange(0, i as int),
        decreases data@.len() - i,
    {
        out.push(*vstd::slice::slice_index_get(data, i));
        i = i + 1;
    }
    proof {
        assert(data@.subrange(0, data@.len() as int) =~= data@);
    }
    out
}

/// The bank-zero aliasing quirk of the first banking family: writing 0x20
/// to the ROM-bank-select window, with the two-bit register holding one,
/// makes the effective ROM bank 0x21, never 0x20.
pub proof fn lemma_bank_select_remap(m: Mbc)
    requires
        m is Mbc1,
        m->Mbc1_mode is Rom,
        m->Mbc1_two_bit_reg == 1,
    ensures
        m.spec_control_write(0x2000, 0x20).spec_rom_bank_num() == 0x21,
{
    assert(0x20u8 & 0x1F == 0) by (bit_vector);
}

/// More generally: whatever the two-bit register holds, a write that
/// selects an aliasing five-bit bank of zero never leaves the effective
/// bank at a multiple of 0x20; the aliasing values are remapped one up.
pub proof fn lemma_bank_select_never_aliases(m: Mbc, byte: u8)
    requires
        m.wf(),
        m is Mbc1,
        m->Mbc1_mode is Rom,
        byte & 0x1F == 0,
    ensures
        m.spec_control_write(0x2000, byte).spec_rom_bank_num() == m->Mbc1_two_bit_reg * 32 + 1,
{
    let t = m->Mbc1_two_bit_reg;
    let post = m.spec_control_write(0x2000, byte);
    assert(post->Mbc1_two_bit_reg == t);
    assert(t <= 3 ==> (t * 32 == 0x00 || t * 32 == 0x20 || t * 32 == 0x40 || t * 32 == 0x60))
        by (bit_vector);
}

} // verus!
