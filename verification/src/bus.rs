//! The memory bus: the sole facade the CPU and the peripherals read and
//! write memory through. It resolves each address through the memory map
//! to its owning device, and intercepts the two DMA trigger addresses to
//! perform cross-device copies through the bus itself.

use vstd::prelude::*;

use crate::memory::{MemoryMap, MemoryMappedDeviceId, MemoryMappedDeviceManager};

verus! {

/// The sprite-table DMA trigger address.
pub const DMA_ADDR: u16 = 0xFF46;

/// The VRAM block-transfer control address.
pub const HDMA5_CTRL_ADDR: u16 = 0xFF55;

pub struct MemoryBus {
    pub map: MemoryMap,
    pub devices: MemoryMappedDeviceManager,
}

impl MemoryBus {
    /// Every address resolves to an installed, well-formed device.
    pub open spec fn wf(self) -> bool {
        &&& self.map.wf()
        &&& self.devices.wf()
        &&& forall|a: u16|
            (#[trigger] self.map.spec_id(a)) is Some && self.devices.present(
                self.map.spec_id(a).unwrap())
    }

    /// The device that owns `addr`.
    pub open spec fn route(self, addr: u16) -> MemoryMappedDeviceId {
        self.map.spec_id(addr).unwrap()
    }

    /// Routes whose device behaves as plain byte storage at that address:
    /// a write there changes exactly that address's read-back.
    pub open spec fn plain_ram_at(self, addr: u16) -> bool {
        &&& addr != crate::devices::WRAM_BANK_ADDR
        &&& addr != DMA_ADDR
        &&& addr != HDMA5_CTRL_ADDR
        &&& match self.route(addr) {
            MemoryMappedDeviceId::RAMBank0 => self.devices.ram_bank0.unwrap().in_range(addr),
            MemoryMappedDeviceId::RAMBank1 => self.devices.ram_bank1.unwrap().in_range(addr),
            MemoryMappedDeviceId::HRAM => self.devices.hram.unwrap().in_range(addr),
            MemoryMappedDeviceId::Everything => true,
            _ => false,
        }
    }

    pub fn new(map: MemoryMap, devices: MemoryMappedDeviceManager) -> (r: MemoryBus)
        ensures
            r.map == map,
            r.devices == devices,
    {
        MemoryBus { map, devices }
    }

    /// A bus over trivial wiring: one flat device answers for the whole
    /// address space, preloaded with `data` at address zero.
    pub fn new_everything(data: &[u8]) -> (r: MemoryBus)
        requires
            data@.len() <= 0x10000,
        ensures
            r.wf(),
            forall|a: u16| r.route(a) == MemoryMappedDeviceId::Everything,
            forall|a: u16|
                a < data@.len() ==> #[trigger] r.read8(a) == data@[a as int],
            forall|a: u16| a >= data@.len() ==> #[trigger] r.read8(a) == 0,
    {
        proof {
            reveal(MemoryBus::read8);
        }
        let device = crate::devices::EverythingDevice::new(data);
        let mut map = MemoryMap::new();
        let mut areas: Vec<crate::memory::MappedArea> = Vec::new();
        areas.push(crate::memory::MappedArea(0, 0x10000));
        map.register(MemoryMappedDeviceId::Everything, areas.as_slice());
        let mut devices = MemoryMappedDeviceManager::new();
        devices.set_everything(device);
        proof {
            assert forall|a: u16| map.spec_id(a) == Some(MemoryMappedDeviceId::Everything) by {
                assert(areas@[0].covers(a));
            }
        }
        MemoryBus { map, devices }
    }

    /// The byte a read of `addr` returns, resolved through the map to the
    /// owning device's read model.
    #[verifier::opaque]
    pub open spec fn read8(self, addr: u16) -> u8 {
        match self.route(addr) {
            MemoryMappedDeviceId::Cartridge => self.devices.cartridge.unwrap().read8(addr),
            MemoryMappedDeviceId::RAMBank0 => self.devices.ram_bank0.unwrap().read8(addr),
            MemoryMappedDeviceId::RAMBank1 => self.devices.ram_bank1.unwrap().read8(addr),
            MemoryMappedDeviceId::Timer => self.devices.timer.unwrap().read8(addr),
            MemoryMappedDeviceId::Interrupt => self.devices.interrupt_controller.unwrap().read8(
                addr),
            MemoryMappedDeviceId::Joypad => self.devices.joypad_controller.unwrap().read8(addr),
            MemoryMappedDeviceId::LCD => self.devices.lcd_controller.unwrap().read8(addr),
            MemoryMappedDeviceId::Serial => self.devices.serial_controller.unwrap().read8(addr),
            MemoryMappedDeviceId::Sound => self.devices.sound_controller.unwrap().read8(addr),
            MemoryMappedDeviceId::HRAM => self.devices.hram.unwrap().read8(addr),
            MemoryMappedDeviceId::Ignore => 0xFF,
            MemoryMappedDeviceId::Everything => self.devices.everything.unwrap().read8(addr),
        }
    }

    pub fn get8(&self, addr: u16) -> (r: u8)
        requires
            self.wf(),
        ensures
            r == self.read8(addr),
    {
        proof {
            reveal(MemoryBus::read8);
        }
        match self.map.get_id(addr) {
            MemoryMappedDeviceId::Cartridge => match &self.devices.cartridge {
                Some(c) => c.get8(addr),
                None => unreached(),
            },
            MemoryMappedDeviceId::RAMBank0 => match &self.devices.ram_bank0 {
                Some(d) => d.get8(addr),
                None => unreached(),
            },
            MemoryMappedDeviceId::RAMBank1 => match &self.devices.ram_bank1 {
                Some(d) => d.get8(addr),
                None => unreached(),
            },
            MemoryMappedDeviceId::Timer => match &self.devices.timer {
                Some(d) => d.get8(addr),
                None => unreached(),
            },
            MemoryMappedDeviceId::Interrupt => match &self.devices.interrupt_controller {
                Some(d) => d.get8(addr),
                None => unreached(),
            },
            MemoryMappedDeviceId::Joypad => match &self.devices.joypad_controller {
                Some(d) => d.get8(addr),
                None => unreached(),
            },
            MemoryMappedDeviceId::LCD => match &self.devices.lcd_controller {
                Some(d) => d.get8(addr),
                None => unreached(),
            },
            MemoryMappedDeviceId::Serial => match &self.devices.serial_controller {
                Some(d) => d.get8(addr),
                None => unreached(),
            },
            MemoryMappedDeviceId::Sound => match &self.devices.sound_controller {
                Some(d) => if crate::sound::NR10_ADDR <= addr && addr
                    <= crate::sound::WAVE_END {
                    d.get8(addr)
                } else {
                    0xFF
                },
                None => unreached(),
            },
            MemoryMappedDeviceId::HRAM => match &self.devices.hram {
                Some(d) => d.get8(addr),
                None => unreached(),
            },
            MemoryMappedDeviceId::Ignore => self.devices.ignore.get8(addr),
            MemoryMappedDeviceId::Everything => match &self.devices.everything {
                Some(d) => d.get8(addr),
                None => unreached(),
            },
        }
    }

    /// How a write relates the bus before to the bus after: the map never
    /// changes; a routed write changes only the owning device, by that
    /// device's own write relation; the two DMA control addresses instead
    /// drive the display controller.
    #[verifier::opaque]
    pub open spec fn write8_rel(self, post: MemoryBus, addr: u16, byte: u8) -> bool {
        &&& post.map == self.map
        &&& if addr == DMA_ADDR {
            if self.devices.lcd_controller is Some {
                &&& post.devices == (MemoryMappedDeviceManager {
                    lcd_controller: post.devices.lcd_controller,
                    ..self.devices
                })
                &&& post.devices.lcd_controller is Some
                &&& post.devices.lcd_controller.unwrap() == (crate::lcd::LcdController {
                    oam: post.devices.lcd_controller.unwrap().oam,
                    ..self.devices.lcd_controller.unwrap()
                })
                &&& post.devices.lcd_controller.unwrap().oam@ == Seq::new(160,
                    |k: int| self.read8((byte * 256 + k) as u16))
            } else {
                post == self
            }
        } else if addr == HDMA5_CTRL_ADDR {
            if self.devices.lcd_controller is Some {
                &&& post.devices == (MemoryMappedDeviceManager {
                    lcd_controller: post.devices.lcd_controller,
                    ..self.devices
                })
                &&& post.devices.lcd_controller is Some
                &&& post.devices.lcd_controller.unwrap().wf()
                &&& (crate::bits::spec_bit(byte, 7) == 1 ==> post.devices.lcd_controller.unwrap()
                    == (crate::lcd::LcdController {
                    pending_hblank_dma: (((byte & 0x7F) as u16 + 1) * 16) as u16,
                    ..self.devices.lcd_controller.unwrap()
                }))
                &&& (crate::bits::spec_bit(byte, 7) == 0
                    ==> self.devices.lcd_controller.unwrap().vram_dma_rel(
                    post.devices.lcd_controller.unwrap(), Seq::new(
                    (((byte & 0x7F) as nat) + 1) * 16, |k: int|
                        self.read8(((self.devices.lcd_controller.unwrap().vram_dma_src + k)
                            % 0x10000) as u16))))
            } else {
                post == self
            }
        } else {
            match self.route(addr) {
                MemoryMappedDeviceId::Cartridge => {
                    &&& post.devices == (MemoryMappedDeviceManager {
                        cartridge: post.devices.cartridge,
                        ..self.devices
                    })
                    &&& post.devices.cartridge is Some
                    &&& self.devices.cartridge.unwrap().write8_rel(
                        post.devices.cartridge.unwrap(), addr, byte)
                }
                MemoryMappedDeviceId::RAMBank0 => {
                    &&& post.devices == (MemoryMappedDeviceManager {
                        ram_bank0: post.devices.ram_bank0,
                        ..self.devices
                    })
                    &&& post.devices.ram_bank0 is Some
                    &&& self.devices.ram_bank0.unwrap().write8_rel(
                        post.devices.ram_bank0.unwrap(), addr, byte)
                }
                MemoryMappedDeviceId::RAMBank1 => {
                    &&& post.devices == (MemoryMappedDeviceManager {
                        ram_bank1: post.devices.ram_bank1,
                        ..self.devices
                    })
                    &&& post.devices.ram_bank1 is Some
                    &&& self.devices.ram_bank1.unwrap().write8_rel(
                        post.devices.ram_bank1.unwrap(), addr, byte)
                }
                MemoryMappedDeviceId::Timer => {
                    &&& post.devices == (MemoryMappedDeviceManager {
                        timer: post.devices.timer,
                        ..self.devices
                    })
                    &&& post.devices.timer is Some
                    &&& post.devices.timer.unwrap() == self.devices.timer.unwrap().write8(
                        addr, byte)
                }
                MemoryMappedDeviceId::Interrupt => {
                    &&& post.devices == (MemoryMappedDeviceManager {
                        interrupt_controller: post.devices.interrupt_controller,
                        ..self.devices
                    })
                    &&& post.devices.interrupt_controller is Some
                    &&& post.devices.interrupt_controller.unwrap()
                        == self.devices.interrupt_controller.unwrap().write8(addr, byte)
                }
                MemoryMappedDeviceId::Joypad => {
                    &&& post.devices == (MemoryMappedDeviceManager {
                        joypad_controller: post.devices.joypad_controller,
                        ..self.devices
                    })
                    &&& post.devices.joypad_controller is Some
                    &&& post.devices.joypad_controller.unwrap()
                        == self.devices.joypad_controller.unwrap().write8(addr, byte)
                }
                MemoryMappedDeviceId::LCD => {
                    &&& post.devices == (MemoryMappedDeviceManager {
                        lcd_controller: post.devices.lcd_controller,
                        ..self.devices
                    })
                    &&& post.devices.lcd_controller is Some
                    &&& self.devices.lcd_controller.unwrap().write8_rel(
                        post.devices.lcd_controller.unwrap(), addr, byte)
                }
                MemoryMappedDeviceId::Serial => {
                    &&& post.devices == (MemoryMappedDeviceManager {
                        serial_controller: post.devices.serial_controller,
                        ..self.devices
                    })
                    &&& post.devices.serial_controller is Some
                    &&& post.devices.serial_controller.unwrap()
                        == self.devices.serial_controller.unwrap().write8(addr, byte)
                }
                MemoryMappedDeviceId::Sound => {
                    &&& post.devices == (MemoryMappedDeviceManager {
                        sound_controller: post.devices.sound_controller,
                        ..self.devices
                    })
                    &&& post.devices.sound_controller is Some
                    &&& if crate::sound::NR10_ADDR <= addr <= crate::sound::WAVE_END {
                        self.devices.sound_controller.unwrap().write8_rel(
                            post.devices.sound_controller.unwrap(), addr, byte)
                    } else {
                        post.devices.sound_controller == self.devices.sound_controller
                    }
                }
                MemoryMappedDeviceId::HRAM => {
                    &&& post.devices == (MemoryMappedDeviceManager {
                        hram: post.devices.hram,
                        ..self.devices
                    })
                    &&& post.devices.hram is Some
                    &&& self.devices.hram.unwrap().write8_rel(post.devices.hram.unwrap(),
                        addr, byte)
                }
                MemoryMappedDeviceId::Ignore => post == self,
                MemoryMappedDeviceId::Everything => {
                    &&& post.devices == (MemoryMappedDeviceManager {
                        everything: post.devices.everything,
                        ..self.devices
                    })
                    &&& post.devices.everything is Some
                    &&& self.devices.everything.unwrap().write8_rel(
                        post.devices.everything.unwrap(), addr, byte)
                }
            }
        }
    }

    pub fn set8(&mut self, addr: u16, byte: u8)
        requires
            old(self).wf(),
        ensures
            final(self).wf(),
            old(self).write8_rel(*final(self), addr, byte),
    {
        proof {
            reveal(MemoryBus::write8_rel);
        }
        if addr == DMA_ADDR {
            if self.devices.lcd_controller.is_some() {
                let source = (byte as u16) * 256;
                let mut data: Vec<u8> = Vec::new();
                let mut i: usize = 0;
                while i < 160
                    invariant
                        self.wf(),
                        *self == *old(self),
                        source == byte * 256,
                        i <= 160,
                        data@.len() == i,
                        forall|k: int|
                            0 <= k < i ==> data@[k] == self.read8((byte * 256 + k) as u16),
                    decreases 160 - i,
                {
                    data.push(self.get8(source + i as u16));
                    i = i + 1;
                }
                proof {
                    assert(data@ =~= Seq::new(160,
                        |k: int| old(self).read8((byte * 256 + k) as u16)));
                }
                self.devices.lcd_controller().dma(&data);
            }
        } else if addr == HDMA5_CTRL_ADDR {
            if self.devices.lcd_controller.is_some() {
                let len: u16 = ((byte & 0x7F) as u16 + 1) * 16;
                if crate::bits::bit(byte, 7) == 1 {
                    self.devices.lcd_controller().vram_hblank_dma(len);
                } else {
                    let source = self.devices.lcd_controller().vram_dma_source();
                    let mut data: Vec<u8> = Vec::new();
                    let mut i: u16 = 0;
                    while i < len
                        invariant
                            self.wf(),
                            *self == *old(self),
                            source == old(self).devices.lcd_controller.unwrap().vram_dma_src,
                            i <= len,
                            data@.len() == i,
                            forall|k: int|
                                0 <= k < i ==> data@[k] == self.read8(
                                    ((source + k) % 0x10000) as u16),
                        decreases len - i,
                    {
                        let a = (((source as u32) + (i as u32)) % 0x10000) as u16;
                        data.push(self.get8(a));
                        i = i + 1;
                    }
                    proof {
                        assert(data@ =~= Seq::new((((byte & 0x7F) as nat) + 1) * 16,
                            |k: int|
                                old(self).read8(((old(
                                    self).devices.lcd_controller.unwrap().vram_dma_src + k)
                                    % 0x10000) as u16)));
                    }
                    self.devices.lcd_controller().vram_dma(&data);
                }
            }
        } else {
            match self.map.get_id(addr) {
                MemoryMappedDeviceId::Cartridge => match &mut self.devices.cartridge {
                    Some(c) => c.set8(addr, byte),
                    None => unreached(),
                },
                MemoryMappedDeviceId::RAMBank0 => match &mut self.devices.ram_bank0 {
                    Some(d) => d.set8(addr, byte),
                    None => unreached(),
                },
                MemoryMappedDeviceId::RAMBank1 => match &mut self.devices.ram_bank1 {
                    Some(d) => d.set8(addr, byte),
                    None => unreached(),
                },
                MemoryMappedDeviceId::Timer => match &mut self.devices.timer {
                    Some(d) => d.set8(addr, byte),
                    None => unreached(),
                },
                MemoryMappedDeviceId::Interrupt => match &mut self.devices.interrupt_controller {
                    Some(d) => d.set8(addr, byte),
                    None => unreached(),
                },
                MemoryMappedDeviceId::Joypad => match &mut self.devices.joypad_controller {
                    Some(d) => d.set8(addr, byte),
                    None => unreached(),
                },
                MemoryMappedDeviceId::LCD => match &mut self.devices.lcd_controller {
                    Some(d) => d.set8(addr, byte),
                    None => unreached(),
                },
                MemoryMappedDeviceId::Serial => match &mut self.devices.serial_controller {
                    Some(d) => d.set8(addr, byte),
                    None => unreached(),
                },
                MemoryMappedDeviceId::Sound => match &mut self.devices.sound_controller {
                    Some(d) => if crate::sound::NR10_ADDR <= addr && addr
                        <= crate::sound::WAVE_END {
                        d.set8(addr, byte)
                    } else {
                    },
                    None => unreached(),
                },
                MemoryMappedDeviceId::HRAM => match &mut self.devices.hram {
                    Some(d) => d.set8(addr, byte),
                    None => unreached(),
                },
                MemoryMappedDeviceId::Ignore => self.devices.ignore.set8(addr, byte),
                MemoryMappedDeviceId::Everything => match &mut self.devices.everything {
                    Some(d) => d.set8(addr, byte),
                    None => unreached(),
                },
            }
        }
    }

    /// Write a 16-bit value: high byte first, low byte at the next
    /// address.
    pub fn set16(&mut self, addr: u16, v: u16)
        requires
            old(self).wf(),
            addr < 0xFFFF,
        ensures
            final(self).wf(),
            final(self).map == old(self).map,
            old(self).plain_ram_at(addr) && old(self).plain_ram_at((addr + 1) as u16) ==> {
                &&& final(self).read8(addr) == v / 256
                &&& final(self).read8((addr + 1) as u16) == v % 256
                &&& forall|a: u16|
                    a != addr && a != addr + 1 ==> final(self).read8(a) == old(self).read8(a)
                &&& forall|a: u16| final(self).plain_ram_at(a) == old(self).plain_ram_at(a)
                &&& final(self).devices.interrupt_controller == old(
                    self).devices.interrupt_controller
            },
    {
        let ghost pre = *self;
        self.set8(addr, crate::bits::high_byte(v));
        let ghost mid = *self;
        self.set8(addr + 1, crate::bits::low_byte(v));
        proof {
            reveal(MemoryBus::write8_rel);
            if pre.plain_ram_at(addr) && pre.plain_ram_at((addr + 1) as u16) {
                lemma_plain_write(pre, mid, addr, crate::bits::spec_high_byte(v));
                lemma_plain_write(mid, *self, (addr + 1) as u16, crate::bits::spec_low_byte(v));
            }
        }
    }

    /// Read a 16-bit value: high byte at `addr`, low byte at the next
    /// address.
    pub fn get16(&self, addr: u16) -> (r: u16)
        requires
            self.wf(),
            addr < 0xFFFF,
        ensures
            r == crate::bits::spec_combine16(self.read8(addr), self.read8((addr + 1) as u16)),
    {
        crate::bits::combine16(self.get8(addr), self.get8(addr + 1))
    }

    /// The three bytes starting at `addr`: an instruction fetch window.
    pub fn get_arr3(&self, addr: u16) -> (r: Vec<u8>)
        requires
            self.wf(),
            addr + 2 <= 0xFFFF,
        ensures
            r@.len() == 3,
            r@[0] == self.read8(addr),
            r@[1] == self.read8((addr + 1) as u16),
            r@[2] == self.read8((addr + 2) as u16),
    {
        let mut v: Vec<u8> = Vec::new();
        v.push(self.get8(addr));
        v.push(self.get8(addr + 1));
        v.push(self.get8(addr + 2));
        v
    }
}

/// A write to a plainly-stored address changes exactly that address's
/// read-back, leaves every other read as it was, keeps the plain-storage
/// layout, and touches no other device.
pub proof fn lemma_plain_write(pre: MemoryBus, post: MemoryBus, addr: u16, byte: u8)
    requires
        pre.wf(),
        post.wf(),
        pre.write8_rel(post, addr, byte),
        pre.plain_ram_at(addr),
    ensures
        post.read8(addr) == byte,
        forall|a: u16| a != addr ==> post.read8(a) == pre.read8(a),
        forall|a: u16| post.plain_ram_at(a) == pre.plain_ram_at(a),
        post.devices.interrupt_controller == pre.devices.interrupt_controller,
        post.devices.cartridge == pre.devices.cartridge,
        post.devices.timer == pre.devices.timer,
{
    reveal(MemoryBus::read8);
    reveal(MemoryBus::write8_rel);
    match pre.route(addr) {
        MemoryMappedDeviceId::RAMBank0 => {
            crate::devices::RamDevice::lemma_write_read(pre.devices.ram_bank0.unwrap(),
                post.devices.ram_bank0.unwrap(), addr, byte);
        }
        MemoryMappedDeviceId::RAMBank1 => {
            crate::devices::RamDevice::lemma_write_read(pre.devices.ram_bank1.unwrap(),
                post.devices.ram_bank1.unwrap(), addr, byte);
        }
        MemoryMappedDeviceId::HRAM => {
            crate::devices::RamDevice::lemma_write_read(pre.devices.hram.unwrap(),
                post.devices.hram.unwrap(), addr, byte);
        }
        MemoryMappedDeviceId::Everything => {
            crate::devices::EverythingDevice::lemma_write_read(pre.devices.everything.unwrap(),
                post.devices.everything.unwrap(), addr, byte);
        }
        _ => {}
    }
    assert forall|a: u16| a != addr implies post.read8(a) == pre.read8(a) by {
        assert(post.route(a) == pre.route(a));
    }
    assert forall|a: u16| post.plain_ram_at(a) == pre.plain_ram_at(a) by {
        assert(post.route(a) == pre.route(a));
    }
}

} // verus!
