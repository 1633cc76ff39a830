//! The cartridge: the ROM image with its fixed header fields, the boot-ROM
//! overlay over the first bank, and the bank controller that maps the
//! switchable ROM window and the battery RAM window.

use vstd::prelude::*;

use crate::mbc::{build_mbc, spec_mbc_supported, Mbc, MbcType, RAM_WINDOW_END,
    RAM_WINDOW_START};
use crate::memory::MappedArea;

verus! {

/// The control register that disables the boot-ROM overlay.
pub const BOOT_ROM_DISABLE_ADDR: u16 = 0xFF50;

/// Header offset of the colour-support byte.
pub const CGB_SUPPORT_OFFSET: usize = 0x143;

/// Header offset of the banking-chip type byte.
pub const MBC_TYPE_OFFSET: usize = 0x147;

/// Header offset of the ROM-size code.
pub const ROM_SIZE_OFFSET: usize = 0x148;

/// Header offset of the RAM-size code.
pub const RAM_SIZE_OFFSET: usize = 0x149;

pub struct Cartridge {
    pub data: Vec<u8>,
    pub rom_bank0: Vec<u8>,
    pub mbc: Mbc,
}

impl Cartridge {
    /// A usable ROM image: at least two banks, a whole number of banks,
    /// bounded by the largest shipping image.
    pub open spec fn data_wf(data: Seq<u8>) -> bool {
        &&& data.len() >= 0x8000
        &&& data.len() % 0x4000 == 0
        &&& data.len() <= 0x800000
    }

    pub open spec fn wf(self) -> bool {
        &&& Cartridge::data_wf(self.data@)
        &&& self.rom_bank0@.len() == 0x4000
        &&& self.mbc.wf()
    }

    /// Assemble a cartridge from its ROM image and the boot ROM to overlay
    /// on the first bank; the header's banking-chip byte selects the
    /// controller. The header bytes at 0x100-0x14E stay visible under the
    /// overlay so the boot ROM can read them.
    pub fn from_data(data: Vec<u8>, boot_rom: &[u8]) -> (r: Cartridge)
        requires
            Cartridge::data_wf(data@),
            boot_rom@.len() <= 0x4000,
            spec_mbc_supported(data@[MBC_TYPE_OFFSET as int]),
        ensures
            r.wf(),
            r.data == data,
            r.mbc.spec_type() == crate::mbc::spec_mbc_kind(data@[MBC_TYPE_OFFSET as int]),
            crate::mbc::spec_mbc_fresh(r.mbc),
            forall|k: int|
                0x100 <= k < 0x14F ==> r.rom_bank0@[k] == data@[k],
            forall|k: int|
                0 <= k < 0x100 && k < boot_rom@.len() ==> r.rom_bank0@[k] == boot_rom@[k],
            forall|k: int|
                0 <= k < 0x100 && k >= boot_rom@.len() ==> r.rom_bank0@[k] == 0,
            forall|k: int|
                0x14F <= k < 0x4000 && k < boot_rom@.len() ==> r.rom_bank0@[k] == boot_rom@[k],
            forall|k: int|
                0x14F <= k < 0x4000 && k >= boot_rom@.len() ==> r.rom_bank0@[k] == 0,
    {
        let mut rom_bank0 = crate::devices::filled_vec(0x4000, 0);
        let n = boot_rom.len();
        let mut i: usize = 0;
        while i < n
            invariant
                n == boot_rom@.len(),
                n <= 0x4000,
                i <= n,
                rom_bank0@.len() == 0x4000,
                forall|k: int| 0 <= k < i ==> rom_bank0@[k] == boot_rom@[k],
                forall|k: int| i <= k < 0x4000 ==> rom_bank0@[k] == 0,
            decreases n - i,
        {
            rom_bank0.set(i, *vstd::slice::slice_index_get(boot_rom, i));
            i = i + 1;
        }
        let mut j: usize = 0x100;
        while j < 0x14F
            invariant
                0x100 <= j <= 0x14F,
                rom_bank0@.len() == 0x4000,
                data@.len() >= 0x8000,
                n == boot_rom@.len(),
                forall|k: int| 0x100 <= k < j ==> rom_bank0@[k] == data@[k],
                forall|k: int|
                    (0 <= k < 0x100 || j <= k < 0x4000) && k < n ==> rom_bank0@[k]
                        == boot_rom@[k],
                forall|k: int|
                    (0 <= k < 0x100 || j <= k < 0x4000) && k >= n ==> rom_bank0@[k] == 0,
            decreases 0x14F - j,
        {
            rom_bank0.set(j, data[j]);
            j = j + 1;
        }
        let mbc = build_mbc(data[MBC_TYPE_OFFSET]);
        Cartridge { data, rom_bank0, mbc }
    }

    /// The address ranges the cartridge answers for: the boot-ROM disable
    /// register, the two ROM banks and the battery RAM window.
    pub fn mapped_areas() -> (r: Vec<MappedArea>)
        ensures
            r@.len() == 3,
            forall|k: int| 0 <= k < r@.len() ==> (#[trigger] r@[k]).wf(),
            r@[0].0 == BOOT_ROM_DISABLE_ADDR && r@[0].1 == 1,
            r@[1].0 == 0 && r@[1].1 == 0x8000,
            r@[2].0 == RAM_WINDOW_START && r@[2].1 == 0x2000,
    {
        let mut v: Vec<MappedArea> = Vec::new();
        v.push(MappedArea(BOOT_ROM_DISABLE_ADDR, 0x1));
        v.push(MappedArea(0x0000, 0x8000));
        v.push(MappedArea(RAM_WINDOW_START, 0x2000));
        v
    }

    /// Drop the boot-ROM overlay: the first bank reads straight from the
    /// image from now on.
    pub fn clear_boot_rom(&mut self)
        requires
            old(self).wf(),
        ensures
            final(self).wf(),
            final(self).rom_bank0@ == old(self).data@.subrange(0, 0x4000),
            final(self).data == old(self).data,
            final(self).mbc == old(self).mbc,
    {
        self.rom_bank0 = crate::lcd::copy_range(&self.data, 0, 0x4000);
        proof {
            assert(self.rom_bank0@ =~= old(self).data@.subrange(0, 0x4000));
        }
    }

    /// The raw ROM image.
    pub fn data(&self) -> (r: &Vec<u8>)
        ensures
            r == self.data,
    {
        &self.data
    }

    /// Whether the header's colour-support byte asks for colour hardware.
    pub fn cgb_compatible(&self) -> (r: bool)
        requires
            self.wf(),
        ensures
            r == (self.data@[CGB_SUPPORT_OFFSET as int] == 0x80 || self.data@[
                CGB_SUPPORT_OFFSET as int] == 0xC0),
    {
        let b = self.data[CGB_SUPPORT_OFFSET];
        b == 0x80 || b == 0xC0
    }

    /// A flat copy of the battery RAM for saving.
    pub fn dump_ram(&self) -> (r: Vec<u8>)
        ensures
            self.mbc is RomOnly ==> r@.len() == 0,
            !(self.mbc is RomOnly) ==> r@ == self.mbc.spec_ram()@,
    {
        self.mbc.dump_ram()
    }

    /// Restore battery RAM from a flat dump of the size `dump_ram` makes:
    /// the bank controller keeps its registers and takes the dumped bytes
    /// as its backing store (the no-banking cartridge restores nothing).
    pub fn load_ram(&mut self, data: &[u8])
        requires
            old(self).wf(),
            data@.len() == 0x8000 || old(self).mbc is RomOnly,
        ensures
            final(self).wf(),
            final(self).data == old(self).data,
            final(self).rom_bank0 == old(self).rom_bank0,
            old(self).mbc is RomOnly ==> final(self).mbc == old(self).mbc,
            !(old(self).mbc is RomOnly) ==> final(self).mbc.spec_ram()@ == data@
                && final(self).mbc == old(self).mbc.update_ram(final(self).mbc.spec_ram()),
    {
        self.mbc.load_ram(data);
    }

    /// The banking chip this cartridge carries.
    pub fn mbc_type(&self) -> (r: MbcType)
        ensures
            r == self.mbc.spec_type(),
    {
        self.mbc.mbc_type()
    }

    /// The header's ROM-size code.
    pub fn rom_size(&self) -> (r: u8)
        requires
            self.wf(),
        ensures
            r == self.data@[ROM_SIZE_OFFSET as int],
    {
        self.data[ROM_SIZE_OFFSET]
    }

    /// The header's RAM-size code.
    pub fn ram_size(&self) -> (r: u8)
        requires
            self.wf(),
        ensures
            r == self.data@[RAM_SIZE_OFFSET as int],
    {
        self.data[RAM_SIZE_OFFSET]
    }

    /// Byte offset of the switchable ROM window inside the image: the
    /// effective bank wraps modulo the number of banks the image holds.
    pub open spec fn spec_rom_bank1_start(self) -> int {
        (self.mbc.spec_rom_bank_num() % (self.data@.len() as int / 0x4000)) * 0x4000
    }

    pub fn rom_bank1_start(&self) -> (r: usize)
        requires
            self.wf(),
        ensures
            r == self.spec_rom_bank1_start(),
            r + 0x4000 <= self.data@.len(),
    {
        let n_banks = self.data.len() / 0x4000;
        let bank = self.mbc.rom_bank_num() % n_banks;
        proof {
            let len = self.data@.len() as int;
            assert(len / 0x4000 >= 2);
            assert(bank < len / 0x4000);
            assert(bank * 0x4000 + 0x4000 <= (len / 0x4000) * 0x4000) by (nonlinear_arith)
                requires
                    bank < len / 0x4000,
            ;
            assert((len / 0x4000) * 0x4000 == len);
        }
        bank * 0x4000
    }

    /// The byte a read returns: the disable register reads zero, the first
    /// bank reads the overlay, the switchable window reads the selected
    /// bank, and the RAM window goes to the bank controller.
    pub open spec fn read8(self, addr: u16) -> u8 {
        if addr == BOOT_ROM_DISABLE_ADDR {
            0
        } else if addr <= 0x3FFF {
            self.rom_bank0@[addr as int]
        } else if addr <= 0x7FFF {
            self.data@[self.spec_rom_bank1_start() + addr - 0x4000]
        } else if RAM_WINDOW_START <= addr <= RAM_WINDOW_END {
            self.mbc.spec_get8(addr)
        } else {
            0xFF
        }
    }

    pub fn get8(&self, addr: u16) -> (r: u8)
        requires
            self.wf(),
        ensures
            r == self.read8(addr),
    {
        if addr == BOOT_ROM_DISABLE_ADDR {
            0
        } else if addr <= 0x3FFF {
            self.rom_bank0[addr as usize]
        } else if addr <= 0x7FFF {
            let start = self.rom_bank1_start();
            self.data[start + (addr as usize - 0x4000)]
        } else if RAM_WINDOW_START <= addr && addr <= RAM_WINDOW_END {
            self.mbc.get8(addr)
        } else {
            0xFF
        }
    }

    /// How a write relates the state before to the state after: the
    /// disable register drops the boot-ROM overlay; control and RAM-window
    /// writes go to the bank controller; anything else is absorbed.
    pub open spec fn write8_rel(self, post: Cartridge, addr: u16, byte: u8) -> bool {
        &&& post.data == self.data
        &&& if addr == BOOT_ROM_DISABLE_ADDR {
            post.mbc == self.mbc && post.rom_bank0@ == self.data@.subrange(0, 0x4000)
        } else if addr <= 0x7FFF || RAM_WINDOW_START <= addr <= RAM_WINDOW_END {
            post.rom_bank0 == self.rom_bank0 && self.mbc.write8_rel(post.mbc, addr, byte)
        } else {
            post == self
        }
    }

    pub fn set8(&mut self, addr: u16, byte: u8)
        requires
            old(self).wf(),
        ensures
            final(self).wf(),
            old(self).write8_rel(*final(self), addr, byte),
    {
        if addr == BOOT_ROM_DISABLE_ADDR {
            self.clear_boot_rom();
        } else if addr <= 0x7FFF || (RAM_WINDOW_START <= addr && addr <= RAM_WINDOW_END) {
            self.mbc.set8(addr, byte);
        }
    }
}

} // verus!
