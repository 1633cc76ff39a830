//! The memory map and the device manager: a static table from every
//! 16-bit address to the device that owns it, built once at boot by each
//! device registering its ranges, and one slot per peripheral for the bus
//! to dispatch into.

use vstd::prelude::*;

use crate::cartridge::Cartridge;
use crate::devices::{EverythingDevice, NullDevice, RamDevice};
use crate::interrupts::InterruptController;
use crate::joypad::JoypadController;
use crate::lcd::LcdController;
use crate::serial::SerialController;
use crate::sound::SoundController;
use crate::timer::TimerController;

verus! {

/// A contiguous address range a device claims: start address and length.
pub struct MappedArea(pub u16, pub usize);

impl MappedArea {
    /// The range stays inside the 16-bit address space.
    pub open spec fn wf(self) -> bool {
        self.0 + self.1 <= 0x10000
    }

    /// Whether the range covers `addr`.
    pub open spec fn covers(self, addr: u16) -> bool {
        self.0 <= addr < self.0 + self.1
    }
}

#[derive(Copy, Clone, Debug, PartialEq, Eq, Structural)]
pub enum MemoryMappedDeviceId {
    Cartridge,
    RAMBank0,
    RAMBank1,
    Timer,
    Interrupt,
    Joypad,
    LCD,
    Serial,
    Sound,
    HRAM,
    Ignore,
    Everything,
}

/// The address-to-device table: one slot per address, filled by
/// registration and never shrunk.
pub struct MemoryMap {
    pub slots: Vec<Option<MemoryMappedDeviceId>>,
}

impl MemoryMap {
    pub open spec fn wf(self) -> bool {
        self.slots@.len() == 0x10000
    }

    /// The owner of `addr`, if any device claimed it.
    pub open spec fn spec_id(self, addr: u16) -> Option<MemoryMappedDeviceId> {
        self.slots@[addr as int]
    }

    pub fn new() -> (r: MemoryMap)
        ensures
            r.wf(),
            forall|a: u16| r.spec_id(a) is None,
    {
        let mut slots: Vec<Option<MemoryMappedDeviceId>> = Vec::new();
        let mut i: usize = 0;
        while i < 0x10000
            invariant
                i <= 0x10000,
                slots@.len() == i,
                forall|j: int| 0 <= j < i ==> slots@[j] is None,
            decreases 0x10000 - i,
        {
            slots.push(None);
            i = i + 1;
        }
        MemoryMap { slots }
    }

    /// Claim every address of the given ranges for `id`; other slots keep
    /// their owner.
    pub fn register(&mut self, id: MemoryMappedDeviceId, mapped_areas: &[MappedArea])
        requires
            old(self).wf(),
            forall|k: int|
                0 <= k < mapped_areas@.len() ==> (#[trigger] mapped_areas@[k]).wf(),
        ensures
            final(self).wf(),
            forall|a: u16|
                (exists|k: int|
                    0 <= k < mapped_areas@.len() && (#[trigger] mapped_areas@[k]).covers(
                        a)) ==> final(self).spec_id(a) == Some(id),
            forall|a: u16|
                (forall|k: int|
                    0 <= k < mapped_areas@.len() ==> !(#[trigger] mapped_areas@[k]).covers(
                        a)) ==> final(self).spec_id(a) == old(self).spec_id(a),
    {
        let n = mapped_areas.len();
        let mut k: usize = 0;
        while k < n
            invariant
                self.wf(),
                n == mapped_areas@.len(),
                k <= n,
                forall|m: int| 0 <= m < n ==> (#[trigger] mapped_areas@[m]).wf(),
                forall|a: u16|
                    (exists|m: int|
                        0 <= m < k && (#[trigger] mapped_areas@[m]).covers(a)) ==> self.spec_id(
                        a) == Some(id),
                forall|a: u16|
                    (forall|m: int|
                        0 <= m < k ==> !(#[trigger] mapped_areas@[m]).covers(a))
                        ==> self.spec_id(a) == old(self).spec_id(a),
            decreases n - k,
        {
            let area = vstd::slice::slice_index_get(mapped_areas, k);
            let start = area.0 as usize;
            let len = area.1;
            let ghost pre = self.slots@;
            proof {
                assert forall|a: u16|
                    (exists|m: int|
                        0 <= m < k && (#[trigger] mapped_areas@[m]).covers(a)) implies pre[
                    a as int] == Some(id) by {
                    assert(self.spec_id(a) == Some(id));
                }
                assert forall|a: u16|
                    (forall|m: int|
                        0 <= m < k ==> !(#[trigger] mapped_areas@[m]).covers(a)) implies pre[
                    a as int] == old(self).spec_id(a) by {
                    assert(self.spec_id(a) == old(self).spec_id(a));
                }
            }
            let mut i: usize = 0;
            while i < len
                invariant
                    self.wf(),
                    i <= len,
                    start + len <= 0x10000,
                    pre.len() == 0x10000,
                    forall|j: int| start <= j < start + i ==> self.slots@[j] == Some(id),
                    forall|j: int|
                        0 <= j < 0x10000 && !(start <= j < start + i) ==> self.slots@[j]
                            == pre[j],
                decreases len - i,
            {
                self.slots.set(start + i, Some(id));
                i = i + 1;
            }
            proof {
                assert forall|a: u16|
                    (exists|m: int|
                        0 <= m < k + 1 && (#[trigger] mapped_areas@[m]).covers(a)) implies
                    self.spec_id(a) == Some(id) by {
                    let m = choose|m: int|
                        0 <= m < k + 1 && (#[trigger] mapped_areas@[m]).covers(a);
                    if m == k {
                        assert(start <= a < start + len);
                        assert(self.slots@[a as int] == Some(id));
                    } else {
                        if start <= a < start + len {
                            assert(self.slots@[a as int] == Some(id));
                        } else {
                            assert(self.slots@[a as int] == pre[a as int]);
                            assert(pre[a as int] == Some(id));
                        }
                    }
                }
                assert forall|a: u16|
                    (forall|m: int|
                        0 <= m < k + 1 ==> !(#[trigger] mapped_areas@[m]).covers(a)) implies
                    self.spec_id(a) == old(self).spec_id(a) by {
                    assert(!(mapped_areas@[k as int].covers(a)));
                    assert(!(start <= a < start + len));
                    assert(self.slots@[a as int] == pre[a as int]);
                }
            }
            k = k + 1;
        }
    }

    /// Claim ranges on a map that already has every address owned; the map
    /// stays total.
    pub fn register_total(&mut self, id: MemoryMappedDeviceId, mapped_areas: &[MappedArea])
        requires
            old(self).wf(),
            forall|k: int|
                0 <= k < mapped_areas@.len() ==> (#[trigger] mapped_areas@[k]).wf(),
            forall|a: u16| (#[trigger] old(self).spec_id(a)) is Some,
        ensures
            final(self).wf(),
            forall|a: u16| (#[trigger] final(self).spec_id(a)) is Some,
            forall|a: u16|
                (exists|k: int|
                    0 <= k < mapped_areas@.len() && (#[trigger] mapped_areas@[k]).covers(
                        a)) ==> final(self).spec_id(a) == Some(id),
            forall|a: u16|
                (forall|k: int|
                    0 <= k < mapped_areas@.len() ==> !(#[trigger] mapped_areas@[k]).covers(
                        a)) ==> final(self).spec_id(a) == old(self).spec_id(a),
            forall|a: u16|
                (#[trigger] final(self).spec_id(a)) == Some(id) || final(self).spec_id(a)
                    == old(self).spec_id(a),
    {
        self.register(id, mapped_areas);
        proof {
            assert forall|a: u16| (#[trigger] self.spec_id(a)) is Some by {
                if exists|k: int|
                    0 <= k < mapped_areas@.len() && (#[trigger] mapped_areas@[k]).covers(a) {
                } else {
                    assert(self.spec_id(a) == old(self).spec_id(a));
                }
            }
            assert forall|a: u16|
                (#[trigger] self.spec_id(a)) == Some(id) || self.spec_id(a) == old(
                self).spec_id(a) by {
                if exists|k: int|
                    0 <= k < mapped_areas@.len() && (#[trigger] mapped_areas@[k]).covers(a) {
                } else {
                    assert(self.spec_id(a) == old(self).spec_id(a));
                }
            }
        }
    }

    /// The owner of `addr`; asking for an unclaimed address is a boot-time
    /// wiring bug that callers rule out.
    pub fn get_id(&self, addr: u16) -> (r: MemoryMappedDeviceId)
        requires
            self.wf(),
            self.spec_id(addr) is Some,
        ensures
            Some(r) == self.spec_id(addr),
    {
        self.slots[addr as usize].unwrap()
    }
}

/// One slot per peripheral; a slot is filled once at boot and the bus
/// resolves device identifiers against it.
pub struct MemoryMappedDeviceManager {
    pub cartridge: Option<Cartridge>,
    pub ram_bank0: Option<RamDevice>,
    pub ram_bank1: Option<RamDevice>,
    pub interrupt_controller: Option<InterruptController>,
    pub joypad_controller: Option<JoypadController>,
    pub timer: Option<TimerController>,
    pub lcd_controller: Option<LcdController>,
    pub sound_controller: Option<SoundController>,
    pub serial_controller: Option<SerialController>,
    pub hram: Option<RamDevice>,
    pub everything: Option<EverythingDevice>,
    pub ignore: NullDevice,
}

impl MemoryMappedDeviceManager {
    /// Whether the device `id` dispatches to is installed.
    pub open spec fn present(self, id: MemoryMappedDeviceId) -> bool {
        match id {
            MemoryMappedDeviceId::Cartridge => self.cartridge is Some,
            MemoryMappedDeviceId::RAMBank0 => self.ram_bank0 is Some,
            MemoryMappedDeviceId::RAMBank1 => self.ram_bank1 is Some,
            MemoryMappedDeviceId::Timer => self.timer is Some,
            MemoryMappedDeviceId::Interrupt => self.interrupt_controller is Some,
            MemoryMappedDeviceId::Joypad => self.joypad_controller is Some,
            MemoryMappedDeviceId::LCD => self.lcd_controller is Some,
            MemoryMappedDeviceId::Serial => self.serial_controller is Some,
            MemoryMappedDeviceId::Sound => self.sound_controller is Some,
            MemoryMappedDeviceId::HRAM => self.hram is Some,
            MemoryMappedDeviceId::Ignore => true,
            MemoryMappedDeviceId::Everything => self.everything is Some,
        }
    }

    /// The installed devices are well formed.
    pub open spec fn wf(self) -> bool {
        &&& (self.cartridge is Some ==> self.cartridge.unwrap().wf())
        &&& (self.ram_bank0 is Some ==> self.ram_bank0.unwrap().wf())
        &&& (self.ram_bank1 is Some ==> self.ram_bank1.unwrap().wf())
        &&& (self.timer is Some ==> self.timer.unwrap().wf())
        &&& (self.lcd_controller is Some ==> self.lcd_controller.unwrap().wf())
        &&& (self.sound_controller is Some ==> self.sound_controller.unwrap().wf())
        &&& (self.hram is Some ==> self.hram.unwrap().wf())
        &&& (self.everything is Some ==> self.everything.unwrap().wf())
    }

    pub fn new() -> (r: MemoryMappedDeviceManager)
        ensures
            r.wf(),
            r.cartridge is None,
            r.ram_bank0 is None,
            r.ram_bank1 is None,
            r.interrupt_controller is None,
            r.joypad_controller is None,
            r.timer is None,
            r.lcd_controller is None,
            r.sound_controller is None,
            r.serial_controller is None,
            r.hram is None,
            r.everything is None,
    {
        MemoryMappedDeviceManager {
            cartridge: None,
            ram_bank0: None,
            ram_bank1: None,
            interrupt_controller: None,
            joypad_controller: None,
            timer: None,
            lcd_controller: None,
            sound_controller: None,
            serial_controller: None,
            hram: None,
            everything: None,
            ignore: NullDevice::new(),
        }
    }

    /// Install the cartridge; a cartridge without colour support drops the
    /// display controller to the monochrome mode.
    pub fn set_cartridge(&mut self, device: Cartridge)
        requires
            old(self).wf(),
            device.wf(),
            old(self).lcd_controller is Some,
        ensures
            final(self).wf(),
            final(self).cartridge == Some(device),
            final(self).present(MemoryMappedDeviceId::Cartridge),
            final(self).ram_bank0 == old(self).ram_bank0,
            final(self).ram_bank1 == old(self).ram_bank1,
            final(self).interrupt_controller == old(self).interrupt_controller,
            final(self).timer == old(self).timer,
            final(self).hram == old(self).hram,
            final(self).joypad_controller == old(self).joypad_controller,
            final(self).serial_controller == old(self).serial_controller,
            final(self).sound_controller == old(self).sound_controller,
            final(self).everything == old(self).everything,
            final(self).lcd_controller is Some,
    {
        if !device.cgb_compatible() {
            self.lcd_controller().set_mode(crate::gameboy::Mode::DMG);
        }
        self.cartridge = Some(device);
    }

    pub fn cartridge(&mut self) -> (r: &mut Cartridge)
        requires
            old(self).cartridge is Some,
        ensures
            *r == old(self).cartridge.unwrap(),
            *final(self) == (MemoryMappedDeviceManager {
                cartridge: Some(*final(r)),
                ..*old(self)
            }),
    {
        match &mut self.cartridge {
            Some(v) => v,
            None => unreached(),
        }
    }

    pub fn set_ram_bank0(&mut self, device: RamDevice)
        requires
            old(self).wf(),
            device.wf(),
        ensures
            final(self).wf(),
            *final(self) == (MemoryMappedDeviceManager {
                ram_bank0: Some(device),
                ..*old(self)
            }),
    {
        self.ram_bank0 = Some(device);
    }

    pub fn ram_bank0(&mut self) -> (r: &mut RamDevice)
        requires
            old(self).ram_bank0 is Some,
        ensures
            *r == old(self).ram_bank0.unwrap(),
            *final(self) == (MemoryMappedDeviceManager {
                ram_bank0: Some(*final(r)),
                ..*old(self)
            }),
    {
        match &mut self.ram_bank0 {
            Some(v) => v,
            None => unreached(),
        }
    }

    pub fn set_ram_bank1(&mut self, device: RamDevice)
        requires
            old(self).wf(),
            device.wf(),
        ensures
            final(self).wf(),
            *final(self) == (MemoryMappedDeviceManager {
                ram_bank1: Some(device),
                ..*old(self)
            }),
    {
        self.ram_bank1 = Some(device);
    }

    pub fn ram_bank1(&mut self) -> (r: &mut RamDevice)
        requires
            old(self).ram_bank1 is Some,
        ensures
            *r == old(self).ram_bank1.unwrap(),
            *final(self) == (MemoryMappedDeviceManager {
                ram_bank1: Some(*final(r)),
                ..*old(self)
            }),
    {
        match &mut self.ram_bank1 {
            Some(v) => v,
            None => unreached(),
        }
    }

    pub fn set_interrupt_controller(&mut self, device: InterruptController)
        requires
            old(self).wf(),
        ensures
            final(self).wf(),
            *final(self) == (MemoryMappedDeviceManager {
                interrupt_controller: Some(device),
                ..*old(self)
            }),
    {
        self.interrupt_controller = Some(device);
    }

    pub fn interrupt_controller(&mut self) -> (r: &mut InterruptController)
        requires
            old(self).interrupt_controller is Some,
        ensures
            *r == old(self).interrupt_controller.unwrap(),
            *final(self) == (MemoryMappedDeviceManager {
                interrupt_controller: Some(*final(r)),
                ..*old(self)
            }),
    {
        match &mut self.interrupt_controller {
            Some(v) => v,
            None => unreached(),
        }
    }

    pub fn set_joypad_controller(&mut self, device: JoypadController)
        requires
            old(self).wf(),
        ensures
            final(self).wf(),
            *final(self) == (MemoryMappedDeviceManager {
                joypad_controller: Some(device),
                ..*old(self)
            }),
    {
        self.joypad_controller = Some(device);
    }

    pub fn joypad_controller(&mut self) -> (r: &mut JoypadController)
        requires
            old(self).joypad_controller is Some,
        ensures
            *r == old(self).joypad_controller.unwrap(),
            *final(self) == (MemoryMappedDeviceManager {
                joypad_controller: Some(*final(r)),
                ..*old(self)
            }),
    {
        match &mut self.joypad_controller {
            Some(v) => v,
            None => unreached(),
        }
    }

    pub fn set_timer(&mut self, device: TimerController)
        requires
            old(self).wf(),
            device.wf(),
        ensures
            final(self).wf(),
            *final(self) == (MemoryMappedDeviceManager { timer: Some(device), ..*old(self) }),
    {
        self.timer = Some(device);
    }

    pub fn timer(&mut self) -> (r: &mut TimerController)
        requires
            old(self).timer is Some,
        ensures
            *r == old(self).timer.unwrap(),
            *final(self) == (MemoryMappedDeviceManager {
                timer: Some(*final(r)),
                ..*old(self)
            }),
    {
        match &mut self.timer {
            Some(v) => v,
            None => unreached(),
        }
    }

    pub fn set_lcd_controller(&mut self, device: LcdController)
        requires
            old(self).wf(),
            device.wf(),
        ensures
            final(self).wf(),
            *final(self) == (MemoryMappedDeviceManager {
                lcd_controller: Some(device),
                ..*old(self)
            }),
    {
        self.lcd_controller = Some(device);
    }

    pub fn lcd_controller(&mut self) -> (r: &mut LcdController)
        requires
            old(self).lcd_controller is Some,
        ensures
            *r == old(self).lcd_controller.unwrap(),
            *final(self) == (MemoryMappedDeviceManager {
                lcd_controller: Some(*final(r)),
                ..*old(self)
            }),
    {
        match &mut self.lcd_controller {
            Some(v) => v,
            None => unreached(),
        }
    }

    pub fn set_sound_controller(&mut self, device: SoundController)
        requires
            old(self).wf(),
            device.wf(),
        ensures
            final(self).wf(),
            *final(self) == (MemoryMappedDeviceManager {
                sound_controller: Some(device),
                ..*old(self)
            }),
    {
        self.sound_controller = Some(device);
    }

    pub fn sound_controller(&mut self) -> (r: &mut SoundController)
        requires
            old(self).sound_controller is Some,
        ensures
            *r == old(self).sound_controller.unwrap(),
            *final(self) == (MemoryMappedDeviceManager {
                sound_controller: Some(*final(r)),
                ..*old(self)
            }),
    {
        match &mut self.sound_controller {
            Some(v) => v,
            None => unreached(),
        }
    }

    pub fn set_serial_controller(&mut self, device: SerialController)
        requires
            old(self).wf(),
        ensures
            final(self).wf(),
            *final(self) == (MemoryMappedDeviceManager {
                serial_controller: Some(device),
                ..*old(self)
            }),
    {
        self.serial_controller = Some(device);
    }

    pub fn serial_controller(&mut self) -> (r: &mut SerialController)
        requires
            old(self).serial_controller is Some,
        ensures
            *r == old(self).serial_controller.unwrap(),
            *final(self) == (MemoryMappedDeviceManager {
                serial_controller: Some(*final(r)),
                ..*old(self)
            }),
    {
        match &mut self.serial_controller {
            Some(v) => v,
            None => unreached(),
        }
    }

    pub fn set_hram(&mut self, device: RamDevice)
        requires
            old(self).wf(),
            device.wf(),
        ensures
            final(self).wf(),
            *final(self) == (MemoryMappedDeviceManager { hram: Some(device), ..*old(self) }),
    {
        self.hram = Some(device);
    }

    pub fn hram(&mut self) -> (r: &mut RamDevice)
        requires
            old(self).hram is Some,
        ensures
            *r == old(self).hram.unwrap(),
            *final(self) == (MemoryMappedDeviceManager {
                hram: Some(*final(r)),
                ..*old(self)
            }),
    {
        match &mut self.hram {
            Some(v) => v,
            None => unreached(),
        }
    }

    pub fn set_everything(&mut self, device: EverythingDevice)
        requires
            old(self).wf(),
            device.wf(),
        ensures
            final(self).wf(),
            *final(self) == (MemoryMappedDeviceManager {
                everything: Some(device),
                ..*old(self)
            }),
    {
        self.everything = Some(device);
    }

    pub fn everything(&mut self) -> (r: &mut EverythingDevice)
        requires
            old(self).everything is Some,
        ensures
            *r == old(self).everything.unwrap(),
            *final(self) == (MemoryMappedDeviceManager {
                everything: Some(*final(r)),
                ..*old(self)
            }),
    {
        match &mut self.everything {
            Some(v) => v,
            None => unreached(),
        }
    }
}

} // verus!
