//! The assembled machine: the CPU, the memory bus with every peripheral
//! wired into the boot-time memory map, and the orchestration of one video
//! frame: step the CPU, feed the cycle count to the timer, display, serial
//! and audio peripherals, forward the interrupts they raise, and stop when
//! the frame-complete interrupt fires.

use vstd::prelude::*;

pub use crate::joypad::JoypadInput;

use crate::bus::MemoryBus;
use crate::cartridge::Cartridge;
use crate::cpu::Cpu;
use crate::devices::RamDevice;
use crate::instr::{Instr, Opcode, Src};
use crate::interrupts::{Interrupt, InterruptController};
use crate::joypad::JoypadController;
use crate::lcd::LcdController;
use crate::memory::{MappedArea, MemoryMap, MemoryMappedDeviceId, MemoryMappedDeviceManager};
use crate::registers::Registers;
use crate::serial::SerialController;
use crate::sound::SoundController;
use crate::timer::TimerController;

verus! {

/// Width of the visible screen in pixels.
pub const GAME_WIDTH: usize = 160;

/// Height of the visible screen in pixels.
pub const GAME_HEIGHT: usize = 144;

/// One screen pixel, five bits per channel.
#[derive(Copy, Clone, Debug)]
pub struct Color {
    pub r: u8,
    pub g: u8,
    pub b: u8,
}

impl Color {
    pub fn new(r: u8, g: u8, b: u8) -> (c: Color)
        ensures
            c == (Color { r, g, b }),
    {
        Color { r, g, b }
    }
}

/// Console revision: the original monochrome machine or the colour
/// machine.
#[derive(Clone, Copy, Debug, PartialEq, Eq, Structural)]
pub enum Mode {
    DMG,
    CGB,
}

impl Mode {
    pub fn is_cgb(&self) -> (r: bool)
        ensures
            r == (*self is CGB),
    {
        match self {
            Mode::DMG => false,
            Mode::CGB => true,
        }
    }
}

/// How a frame of emulation ended.
#[derive(Clone, Copy, Debug, PartialEq, Eq, Structural)]
pub enum TickResult {
    /// The frame-complete interrupt fired: one video frame has elapsed.
    FrameComplete,
    /// The guest reached an instruction the engine does not implement, or
    /// an operand out of range: the session is no longer trustworthy.
    Fault,
    /// The cycle budget ran out without a frame completing (the display
    /// was left off, or the guest looped without finishing a frame).
    Starved,
}

pub struct Gameboy {
    pub cpu: Cpu,
    pub bus: MemoryBus,
    pub mode: Mode,
}

/// The peripheral phase of one frame-loop iteration, with the interrupts
/// each peripheral raised: the timer, display and serial controllers
/// advance by exactly the step's cycles under their own tick relations,
/// the audio controller keeps its power switch, the map and every other
/// device are carried over, and the raised interrupts are or-ed into the
/// interrupt controller's request mask in order, its enable mask
/// untouched.
pub open spec fn peripheral_phase(mid: MemoryBus, post: MemoryBus, cycles: u32,
    timer_raised: Option<Interrupt>, lcd_raised: Seq<Interrupt>,
    serial_raised: Option<Interrupt>) -> bool {
    &&& post.map == mid.map
    &&& post.devices == (MemoryMappedDeviceManager {
        timer: post.devices.timer,
        lcd_controller: post.devices.lcd_controller,
        serial_controller: post.devices.serial_controller,
        sound_controller: post.devices.sound_controller,
        interrupt_controller: post.devices.interrupt_controller,
        ..mid.devices
    })
    &&& mid.devices.timer is Some && post.devices.timer is Some
    &&& mid.devices.timer.unwrap().tick_rel(post.devices.timer.unwrap(), cycles,
        timer_raised)
    &&& mid.devices.lcd_controller is Some && post.devices.lcd_controller is Some
    &&& mid.devices.lcd_controller.unwrap().tick_rel(post.devices.lcd_controller.unwrap(),
        cycles, lcd_raised)
    &&& mid.devices.serial_controller is Some && post.devices.serial_controller is Some
    &&& mid.devices.serial_controller.unwrap().tick_rel(
        post.devices.serial_controller.unwrap(), cycles, serial_raised)
    &&& mid.devices.sound_controller is Some && post.devices.sound_controller is Some
    &&& post.devices.sound_controller.unwrap().on == mid.devices.sound_controller.unwrap().on
    &&& mid.devices.interrupt_controller is Some && post.devices.interrupt_controller is Some
    &&& post.devices.interrupt_controller.unwrap().ie_reg
        == mid.devices.interrupt_controller.unwrap().ie_reg
    &&& post.devices.interrupt_controller.unwrap().if_reg
        == crate::interrupts::spec_or_flags(
        mid.devices.interrupt_controller.unwrap().if_reg | crate::interrupts::spec_opt_flag(
            timer_raised) | crate::interrupts::spec_opt_flag(serial_raised), lcd_raised)
}

/// One iteration of the frame loop, as a relation between machine states:
/// the CPU takes one step under the execution engine's full step relation,
/// the peripheral phase ticks the peripherals with exactly the step's
/// cycles and requests every interrupt they raised, and `frame` says
/// whether the display controller raised the frame-complete interrupt.
#[verifier::opaque]
pub open spec fn frame_step_rel(pre: Gameboy, post: Gameboy, cycles: u32, frame: bool) -> bool {
    &&& post.mode == pre.mode
    &&& exists|mid_bus: MemoryBus, timer_raised: Option<Interrupt>, lcd_raised: Seq<
        Interrupt>, serial_raised: Option<Interrupt>|
        {
            &&& #[trigger] crate::cpu::eval_rel(pre.cpu, pre.bus, post.cpu, mid_bus, cycles)
            &&& #[trigger] peripheral_phase(mid_bus, post.bus, cycles, timer_raised,
                lcd_raised, serial_raised)
            &&& frame == lcd_raised.contains(Interrupt::VBlank)
        }
}

/// The machine `post` is reachable from `pre` by `n` iterations of the
/// frame loop, none of which raised the frame-complete interrupt.
#[verifier::opaque]
pub open spec fn frame_reachable(pre: Gameboy, post: Gameboy, n: nat) -> bool
    decreases n,
{
    if n == 0 {
        post == pre
    } else {
        exists|mid: Gameboy, c: u32|
            frame_reachable(pre, mid, (n - 1) as nat) && #[trigger] frame_step_rel(mid, post,
                c, false)
    }
}

/// A CPU step followed by a peripheral phase is one frame-loop iteration.
pub proof fn lemma_frame_step(pre: Gameboy, stepped_bus: MemoryBus, post: Gameboy,
    cycles: u32, timer_raised: Option<Interrupt>, lcd_raised: Seq<Interrupt>,
    serial_raised: Option<Interrupt>, frame: bool)
    requires
        crate::cpu::eval_rel(pre.cpu, pre.bus, post.cpu, stepped_bus, cycles),
        peripheral_phase(stepped_bus, post.bus, cycles, timer_raised, lcd_raised,
            serial_raised),
        post.mode == pre.mode,
        frame == lcd_raised.contains(Interrupt::VBlank),
    ensures
        frame_step_rel(pre, post, cycles, frame),
{
    reveal(frame_step_rel);
}

/// One more frameless iteration extends reachability by one.
pub proof fn lemma_frame_extend(latched: Gameboy, pre: Gameboy, post: Gameboy, cycles: u32,
    n: nat)
    requires
        frame_reachable(latched, pre, n),
        frame_step_rel(pre, post, cycles, false),
    ensures
        frame_reachable(latched, post, n + 1),
{
    reveal(frame_reachable);
}

/// A machine is reachable from itself by zero iterations.
pub proof fn lemma_frame_reachable_zero(g: Gameboy)
    ensures
        frame_reachable(g, g, 0),
{
    reveal(frame_reachable);
}

/// The boot-time wiring of the whole address space: the device that owns
/// each address once every peripheral has claimed its ranges at `boot`.
/// The ROM banks, the battery-RAM window and the overlay-disable register
/// belong to the cartridge; video RAM, the sprite table and the display
/// registers to the display controller; the work-RAM banks, the timer,
/// interrupt, joypad, serial and audio registers and high RAM to their
/// devices; the bank-select register reaches the switchable work RAM only
/// on the colour machine; and every unclaimed address is absorbed.
pub open spec fn spec_boot_route(mode: Mode, a: u16) -> MemoryMappedDeviceId {
    if 0xFF80 <= a < 0xFFFF {
        MemoryMappedDeviceId::HRAM
    } else if 0xFF01 <= a <= 0xFF02 {
        MemoryMappedDeviceId::Serial
    } else if a == 0xFF00 {
        MemoryMappedDeviceId::Joypad
    } else if 0xFF10 <= a < 0xFF40 {
        MemoryMappedDeviceId::Sound
    } else if (0x8000 <= a < 0xA000) || (0xFE00 <= a < 0xFEA0) || (0xFF40 <= a < 0xFF46) || (
    0xFF47 <= a < 0xFF4C) || a == 0xFF4F || (0xFF51 <= a < 0xFF56) || (0xFF68 <= a < 0xFF6C) {
        MemoryMappedDeviceId::LCD
    } else if 0xFF04 <= a < 0xFF08 {
        MemoryMappedDeviceId::Timer
    } else if a == 0xFFFF || a == 0xFF0F {
        MemoryMappedDeviceId::Interrupt
    } else if a < 0x8000 || (0xA000 <= a < 0xC000) || a == 0xFF50 {
        MemoryMappedDeviceId::Cartridge
    } else if (0xD000 <= a < 0xE000) || (mode is CGB && a == 0xFF70) {
        MemoryMappedDeviceId::RAMBank1
    } else if 0xC000 <= a < 0xD000 {
        MemoryMappedDeviceId::RAMBank0
    } else {
        MemoryMappedDeviceId::Ignore
    }
}

/// The machine as `tick` sees it after latching the pressed buttons: the
/// joypad holds the two freshly latched nibbles and nothing else moved.
pub open spec fn spec_inputs_latched(g: Gameboy, pressed: Seq<JoypadInput>) -> Gameboy {
    Gameboy {
        bus: MemoryBus {
            devices: MemoryMappedDeviceManager {
                joypad_controller: Some(crate::joypad::JoypadController {
                    p1: g.bus.devices.joypad_controller.unwrap().p1,
                    button_nib: crate::joypad::spec_nib(pressed, JoypadInput::Start,
                        JoypadInput::Select, JoypadInput::B, JoypadInput::A),
                    direction_nib: crate::joypad::spec_nib(pressed, JoypadInput::Down,
                        JoypadInput::Up, JoypadInput::Left, JoypadInput::Right),
                }),
                ..g.bus.devices
            },
            ..g.bus
        },
        ..g
    }
}

impl Gameboy {
    /// The machine is fully wired: the bus resolves every address, and the
    /// peripherals the frame loop drives sit at their architected
    /// addresses.
    pub open spec fn wf(self) -> bool {
        &&& self.bus.wf()
        &&& self.bus.route(crate::timer::DIV_ADDR) == MemoryMappedDeviceId::Timer
        &&& self.bus.route(crate::interrupts::IF_ADDR) == MemoryMappedDeviceId::Interrupt
        &&& self.bus.route(crate::joypad::P1_ADDR) == MemoryMappedDeviceId::Joypad
        &&& self.bus.route(crate::serial::SB_ADDR) == MemoryMappedDeviceId::Serial
        &&& self.bus.route(crate::sound::NR10_ADDR) == MemoryMappedDeviceId::Sound
        &&& self.bus.route(crate::lcd::LCDC_ADDR) == MemoryMappedDeviceId::LCD
        &&& self.bus.route(0) == MemoryMappedDeviceId::Cartridge
    }

    /// Assemble the machine: the CPU and every permanent peripheral; the
    /// cartridge arrives at `boot`. The colour machine has eight
    /// switchable work-RAM banks, the monochrome machine one.
    pub fn new(debug: bool, mode: Mode) -> (r: Gameboy)
        ensures
            r.mode == mode,
            r.bus.devices.lcd_controller is Some,
            r.bus.devices.interrupt_controller is Some,
            r.bus.devices.timer is Some,
            r.bus.devices.sound_controller is Some,
            r.bus.devices.serial_controller is Some,
            r.bus.devices.joypad_controller is Some,
            r.bus.devices.ram_bank0 is Some,
            r.bus.devices.ram_bank1 is Some,
            r.bus.devices.hram is Some,
            r.bus.devices.wf(),
            r.bus.map.wf(),
            r.cpu.registers.pc == 0,
            r.cpu.registers == (Registers {
                a: if mode is CGB {
                    0x11 as u8
                } else {
                    0
                },
                b: 0,
                c: 0,
                d: 0,
                e: 0,
                f: 0,
                h: 0,
                l: 0,
                sp: 0,
                pc: 0,
            }),
            !r.cpu.ime,
            !r.cpu.halted,
            r.bus.devices.cartridge is None,
            r.bus.devices.interrupt_controller.unwrap().ie_reg == 0,
            r.bus.devices.interrupt_controller.unwrap().if_reg == 0,
            r.bus.devices.lcd_controller.unwrap().lcdc == 0x91,
            r.bus.devices.lcd_controller.unwrap().ly == 0,
            r.bus.devices.timer.unwrap().tac == 0,
            !r.bus.devices.timer.unwrap().tima_running,
            r.bus.devices.serial_controller.unwrap().sb == 0,
            r.bus.devices.serial_controller.unwrap().sc == 0,
            r.bus.devices.joypad_controller.unwrap().p1 == 0x3F,
            r.bus.devices.ram_bank0.unwrap().bank == 1,
            r.bus.devices.ram_bank1.unwrap().bank == 1,
            r.bus.devices.ram_bank1.unwrap().banks == (if mode is CGB { 7int } else { 1 }),
            forall|i: int|
                0 <= i < r.bus.devices.ram_bank0.unwrap().memory@.len()
                    ==> r.bus.devices.ram_bank0.unwrap().memory@[i] == 0,
            forall|i: int|
                0 <= i < r.bus.devices.ram_bank1.unwrap().memory@.len()
                    ==> r.bus.devices.ram_bank1.unwrap().memory@[i] == 0,
    {
        let mut cpu = Cpu::new(mode);
        if debug {
            cpu.enable_debug();
        }

        let mut device_manager = MemoryMappedDeviceManager::new();
        match mode {
            Mode::CGB => {
                device_manager.set_ram_bank0(RamDevice::new(0xC000, 0x1000, 1));
                device_manager.set_ram_bank1(RamDevice::new(0xD000, 0x1000, 7));
            }
            Mode::DMG => {
                device_manager.set_ram_bank0(RamDevice::new(0xC000, 0x1000, 1));
                device_manager.set_ram_bank1(RamDevice::new(0xD000, 0x1000, 1));
            }
        }
        device_manager.set_interrupt_controller(InterruptController::new());
        device_manager.set_timer(TimerController::new());
        device_manager.set_lcd_controller(LcdController::new());
        device_manager.set_sound_controller(SoundController::new());
        device_manager.set_serial_controller(SerialController::new());
        device_manager.set_joypad_controller(JoypadController::new());
        device_manager.set_hram(RamDevice::new(0xFF80, 128, 1));

        Gameboy { cpu, bus: MemoryBus::new(MemoryMap::new(), device_manager), mode }
    }

    /// Install the cartridge and wire the memory map; with
    /// `skip_boot_rom` the CPU starts at the cartridge entry point and the
    /// boot-ROM overlay is dropped at once.
    pub fn boot(&mut self, cartridge: Cartridge, skip_boot_rom: bool)
        requires
            cartridge.wf(),
            old(self).bus.devices.wf(),
            old(self).bus.devices.lcd_controller is Some,
            old(self).bus.devices.interrupt_controller is Some,
            old(self).bus.devices.timer is Some,
            old(self).bus.devices.sound_controller is Some,
            old(self).bus.devices.serial_controller is Some,
            old(self).bus.devices.joypad_controller is Some,
            old(self).bus.devices.ram_bank0 is Some,
            old(self).bus.devices.ram_bank1 is Some,
            old(self).bus.devices.hram is Some,
            old(self).bus.map.wf(),
        ensures
            final(self).wf(),
            final(self).mode == old(self).mode,
            final(self).bus.devices.cartridge is Some,
            final(self).bus.devices.cartridge.unwrap().data == cartridge.data,
            final(self).bus.devices.cartridge.unwrap().mbc == cartridge.mbc,
            !skip_boot_rom ==> final(self).bus.devices.cartridge.unwrap() == cartridge
                && final(self).cpu == old(self).cpu,
            skip_boot_rom ==> final(self).bus.devices.cartridge.unwrap().rom_bank0@
                == cartridge.data@.subrange(0, 0x4000) && final(self).cpu == (Cpu {
                registers: (Registers { pc: 0x100, ..old(self).cpu.registers }),
                ..old(self).cpu
            }),
            forall|a: u16| #[trigger]
                final(self).bus.route(a) == spec_boot_route(old(self).mode, a),
    {
        let mut cartridge = cartridge;
        if skip_boot_rom {
            self.cpu.skip_boot_rom();
            cartridge.clear_boot_rom();
        }
        self.map_devices(cartridge);
    }

    #[verifier::rlimit(100)]
    #[verifier::spinoff_prover]
    /// Build the boot-time memory map: the absorbing device claims the
    /// whole space first, then every peripheral claims its architected
    /// ranges.
    fn map_devices(&mut self, cartridge: Cartridge)
        requires
            cartridge.wf(),
            old(self).bus.devices.wf(),
            old(self).bus.devices.lcd_controller is Some,
            old(self).bus.devices.interrupt_controller is Some,
            old(self).bus.devices.timer is Some,
            old(self).bus.devices.sound_controller is Some,
            old(self).bus.devices.serial_controller is Some,
            old(self).bus.devices.joypad_controller is Some,
            old(self).bus.devices.ram_bank0 is Some,
            old(self).bus.devices.ram_bank1 is Some,
            old(self).bus.devices.hram is Some,
            old(self).bus.map.wf(),
        ensures
            final(self).wf(),
            final(self).cpu == old(self).cpu,
            final(self).mode == old(self).mode,
            final(self).bus.devices.cartridge == Some(cartridge),
            forall|a: u16| #[trigger]
                final(self).bus.route(a) == spec_boot_route(old(self).mode, a),
    {
        let mut ignore_areas: Vec<MappedArea> = Vec::new();
        ignore_areas.push(MappedArea(0x0000, 0x10000));
        self.bus.map.register(MemoryMappedDeviceId::Ignore, ignore_areas.as_slice());
        proof {
            assert forall|a: u16| (#[trigger] self.bus.map.spec_id(a)) is Some by {
                assert(ignore_areas@[0].covers(a));
            }
            assert forall|a: u16| (#[trigger] self.bus.map.spec_id(a))
                != Some(MemoryMappedDeviceId::Everything) by {
                assert(ignore_areas@[0].covers(a));
            }
        }

        let mut b0_areas: Vec<MappedArea> = Vec::new();
        b0_areas.push(MappedArea(0xC000, 0x1000));
        self.bus.map.register_total(MemoryMappedDeviceId::RAMBank0, b0_areas.as_slice());
        proof {
            assert forall|a: u16| (#[trigger] self.bus.map.spec_id(a))
                != Some(MemoryMappedDeviceId::Everything) by {
            }
        }

        let mut b1_areas: Vec<MappedArea> = Vec::new();
        b1_areas.push(MappedArea(0xD000, 0x1000));
        if self.mode.is_cgb() {
            b1_areas.push(MappedArea(0xFF70, 1));
        }
        self.bus.map.register_total(MemoryMappedDeviceId::RAMBank1, b1_areas.as_slice());
        proof {
            assert forall|a: u16| (#[trigger] self.bus.map.spec_id(a))
                != Some(MemoryMappedDeviceId::Everything) by {
            }
        }

        let cart_areas = Cartridge::mapped_areas();
        self.bus.map.register_total(MemoryMappedDeviceId::Cartridge, cart_areas.as_slice());
        proof {
            assert forall|a: u16| (#[trigger] self.bus.map.spec_id(a))
                != Some(MemoryMappedDeviceId::Everything) by {
            }
        }
        self.bus.devices.set_cartridge(cartridge);
        proof {
            assert(cart_areas@[1].covers(0));
            assert(self.bus.map.spec_id(0) == Some(MemoryMappedDeviceId::Cartridge));
        }

        let ic_areas = InterruptController::mapped_areas();
        self.bus.map.register_total(MemoryMappedDeviceId::Interrupt, ic_areas.as_slice());
        proof {
            assert forall|a: u16| (#[trigger] self.bus.map.spec_id(a))
                != Some(MemoryMappedDeviceId::Everything) by {
            }
        }
        proof {
            assert(ic_areas@[1].covers(crate::interrupts::IF_ADDR));
            assert forall|k: int| 0 <= k < ic_areas@.len() implies !(#[trigger] ic_areas@[k]).covers(0u16) by {
            }
        }

        let t_areas = TimerController::mapped_areas();
        self.bus.map.register_total(MemoryMappedDeviceId::Timer, t_areas.as_slice());
        proof {
            assert forall|a: u16| (#[trigger] self.bus.map.spec_id(a))
                != Some(MemoryMappedDeviceId::Everything) by {
            }
        }
        proof {
            assert(t_areas@[0].covers(crate::timer::DIV_ADDR));
            assert forall|k: int| 0 <= k < t_areas@.len() implies !(#[trigger] t_areas@[k]).covers(0u16) by {
            }
            assert forall|k: int| 0 <= k < t_areas@.len() implies !(#[trigger] t_areas@[k]).covers(crate::interrupts::IF_ADDR) by {
            }
        }

        let l_areas = LcdController::mapped_areas();
        self.bus.map.register_total(MemoryMappedDeviceId::LCD, l_areas.as_slice());
        proof {
            assert forall|a: u16| (#[trigger] self.bus.map.spec_id(a))
                != Some(MemoryMappedDeviceId::Everything) by {
            }
        }
        proof {
            assert(l_areas@[1].covers(crate::lcd::LCDC_ADDR));
            assert forall|k: int| 0 <= k < l_areas@.len() implies !(#[trigger] l_areas@[k]).covers(0u16) by {
            }
            assert forall|k: int| 0 <= k < l_areas@.len() implies !(#[trigger] l_areas@[k]).covers(crate::interrupts::IF_ADDR) by {
            }
            assert forall|k: int| 0 <= k < l_areas@.len() implies !(#[trigger] l_areas@[k]).covers(crate::timer::DIV_ADDR) by {
            }
        }

        let s_areas = SoundController::mapped_areas();
        self.bus.map.register_total(MemoryMappedDeviceId::Sound, s_areas.as_slice());
        proof {
            assert forall|a: u16| (#[trigger] self.bus.map.spec_id(a))
                != Some(MemoryMappedDeviceId::Everything) by {
            }
        }
        proof {
            assert(s_areas@[0].covers(crate::sound::NR10_ADDR));
            assert forall|k: int| 0 <= k < s_areas@.len() implies !(#[trigger] s_areas@[k]).covers(0u16) by {
            }
            assert forall|k: int| 0 <= k < s_areas@.len() implies !(#[trigger] s_areas@[k]).covers(crate::interrupts::IF_ADDR) by {
            }
            assert forall|k: int| 0 <= k < s_areas@.len() implies !(#[trigger] s_areas@[k]).covers(crate::timer::DIV_ADDR) by {
            }
            assert forall|k: int| 0 <= k < s_areas@.len() implies !(#[trigger] s_areas@[k]).covers(crate::lcd::LCDC_ADDR) by {
            }
        }

        let j_areas = JoypadController::mapped_areas();
        self.bus.map.register_total(MemoryMappedDeviceId::Joypad, j_areas.as_slice());
        proof {
            assert forall|a: u16| (#[trigger] self.bus.map.spec_id(a))
                != Some(MemoryMappedDeviceId::Everything) by {
            }
        }
        proof {
            assert(j_areas@[0].covers(crate::joypad::P1_ADDR));
            assert forall|k: int| 0 <= k < j_areas@.len() implies !(#[trigger] j_areas@[k]).covers(0u16) by {
            }
            assert forall|k: int| 0 <= k < j_areas@.len() implies !(#[trigger] j_areas@[k]).covers(crate::interrupts::IF_ADDR) by {
            }
            assert forall|k: int| 0 <= k < j_areas@.len() implies !(#[trigger] j_areas@[k]).covers(crate::timer::DIV_ADDR) by {
            }
            assert forall|k: int| 0 <= k < j_areas@.len() implies !(#[trigger] j_areas@[k]).covers(crate::lcd::LCDC_ADDR) by {
            }
            assert forall|k: int| 0 <= k < j_areas@.len() implies !(#[trigger] j_areas@[k]).covers(crate::sound::NR10_ADDR) by {
            }
        }

        let se_areas = SerialController::mapped_areas();
        self.bus.map.register_total(MemoryMappedDeviceId::Serial, se_areas.as_slice());
        proof {
            assert forall|a: u16| (#[trigger] self.bus.map.spec_id(a))
                != Some(MemoryMappedDeviceId::Everything) by {
            }
        }
        proof {
            assert(se_areas@[0].covers(crate::serial::SB_ADDR));
            assert forall|k: int| 0 <= k < se_areas@.len() implies !(#[trigger] se_areas@[k]).covers(0u16) by {
            }
            assert forall|k: int| 0 <= k < se_areas@.len() implies !(#[trigger] se_areas@[k]).covers(crate::interrupts::IF_ADDR) by {
            }
            assert forall|k: int| 0 <= k < se_areas@.len() implies !(#[trigger] se_areas@[k]).covers(crate::timer::DIV_ADDR) by {
            }
            assert forall|k: int| 0 <= k < se_areas@.len() implies !(#[trigger] se_areas@[k]).covers(crate::lcd::LCDC_ADDR) by {
            }
            assert forall|k: int| 0 <= k < se_areas@.len() implies !(#[trigger] se_areas@[k]).covers(crate::sound::NR10_ADDR) by {
            }
            assert forall|k: int| 0 <= k < se_areas@.len() implies !(#[trigger] se_areas@[k]).covers(crate::joypad::P1_ADDR) by {
            }
        }

        let mut h_areas: Vec<MappedArea> = Vec::new();
        h_areas.push(MappedArea(0xFF80, 0x7F));
        self.bus.map.register_total(MemoryMappedDeviceId::HRAM, h_areas.as_slice());
        proof {
            assert forall|a: u16| (#[trigger] self.bus.map.spec_id(a))
                != Some(MemoryMappedDeviceId::Everything) by {
            }
        }
        proof {
            assert forall|k: int| 0 <= k < h_areas@.len() implies !(#[trigger] h_areas@[k]).covers(0u16) by {
            }
            assert forall|k: int| 0 <= k < h_areas@.len() implies !(#[trigger] h_areas@[k]).covers(crate::interrupts::IF_ADDR) by {
            }
            assert forall|k: int| 0 <= k < h_areas@.len() implies !(#[trigger] h_areas@[k]).covers(crate::timer::DIV_ADDR) by {
            }
            assert forall|k: int| 0 <= k < h_areas@.len() implies !(#[trigger] h_areas@[k]).covers(crate::lcd::LCDC_ADDR) by {
            }
            assert forall|k: int| 0 <= k < h_areas@.len() implies !(#[trigger] h_areas@[k]).covers(crate::sound::NR10_ADDR) by {
            }
            assert forall|k: int| 0 <= k < h_areas@.len() implies !(#[trigger] h_areas@[k]).covers(crate::joypad::P1_ADDR) by {
            }
            assert forall|k: int| 0 <= k < h_areas@.len() implies !(#[trigger] h_areas@[k]).covers(crate::serial::SB_ADDR) by {
            }
        }
        proof {
            assert(self.bus.map.wf());
            assert(self.bus.devices.wf());
            assert(self.bus.route(crate::timer::DIV_ADDR) == MemoryMappedDeviceId::Timer);
            assert(self.bus.route(crate::interrupts::IF_ADDR)
                == MemoryMappedDeviceId::Interrupt);
            assert(self.bus.route(crate::joypad::P1_ADDR) == MemoryMappedDeviceId::Joypad);
            assert(self.bus.route(crate::serial::SB_ADDR) == MemoryMappedDeviceId::Serial);
            assert(self.bus.route(crate::sound::NR10_ADDR) == MemoryMappedDeviceId::Sound);
            assert(self.bus.route(crate::lcd::LCDC_ADDR) == MemoryMappedDeviceId::LCD);
            assert(self.bus.route(0) == MemoryMappedDeviceId::Cartridge);
            assert forall|a: u16|
                (#[trigger] self.bus.map.spec_id(a)) is Some && self.bus.devices.present(
                self.bus.map.spec_id(a).unwrap()) by {
                assert(self.bus.map.spec_id(a) != Some(MemoryMappedDeviceId::Everything));
            }
            assert forall|a: u16| #[trigger]
                self.bus.route(a) == spec_boot_route(old(self).mode, a) by {
                if 0xFF80 <= a < 0xFFFF {
                    assert(h_areas@[0].covers(a));
                } else {
                    assert forall|k: int|
                        0 <= k < h_areas@.len() implies !(#[trigger] h_areas@[k]).covers(
                        a) by {}
                    if 0xFF01 <= a <= 0xFF02 {
                        assert(se_areas@[0].covers(a));
                    } else {
                        assert forall|k: int|
                            0 <= k < se_areas@.len() implies !(#[trigger] se_areas@[k]).covers(
                            a) by {}
                        if a == 0xFF00 {
                            assert(j_areas@[0].covers(a));
                        } else {
                            assert forall|k: int|
                                0 <= k < j_areas@.len() implies !(
                                #[trigger] j_areas@[k]).covers(a) by {}
                            if 0xFF10 <= a < 0xFF40 {
                                assert(s_areas@[0].covers(a));
                            } else {
                                assert forall|k: int|
                                    0 <= k < s_areas@.len() implies !(
                                    #[trigger] s_areas@[k]).covers(a) by {}
                                if 0x8000 <= a < 0xA000 {
                                    assert(l_areas@[0].covers(a));
                                } else if 0xFE00 <= a < 0xFEA0 {
                                    assert(l_areas@[7].covers(a));
                                } else if 0xFF40 <= a < 0xFF46 {
                                    assert(l_areas@[1].covers(a));
                                } else if 0xFF47 <= a < 0xFF4C {
                                    assert(l_areas@[2].covers(a));
                                } else if a == 0xFF4F {
                                    assert(l_areas@[3].covers(a));
                                } else if 0xFF51 <= a < 0xFF56 {
                                    assert(l_areas@[4].covers(a));
                                } else if 0xFF68 <= a < 0xFF6A {
                                    assert(l_areas@[5].covers(a));
                                } else if 0xFF6A <= a < 0xFF6C {
                                    assert(l_areas@[6].covers(a));
                                } else {
                                    assert forall|k: int|
                                        0 <= k < l_areas@.len() implies !(
                                        #[trigger] l_areas@[k]).covers(a) by {}
                                    if 0xFF04 <= a < 0xFF08 {
                                        assert(t_areas@[0].covers(a));
                                    } else {
                                        assert forall|k: int|
                                            0 <= k < t_areas@.len() implies !(
                                            #[trigger] t_areas@[k]).covers(a) by {}
                                        if a == 0xFFFF {
                                            assert(ic_areas@[0].covers(a));
                                        } else if a == 0xFF0F {
                                            assert(ic_areas@[1].covers(a));
                                        } else {
                                            assert forall|k: int|
                                                0 <= k < ic_areas@.len() implies !(
                                                #[trigger] ic_areas@[k]).covers(a) by {}
                                            if a < 0x8000 {
                                                assert(cart_areas@[1].covers(a));
                                            } else if 0xA000 <= a < 0xC000 {
                                                assert(cart_areas@[2].covers(a));
                                            } else if a == 0xFF50 {
                                                assert(cart_areas@[0].covers(a));
                                            } else {
                                                assert forall|k: int|
                                                    0 <= k < cart_areas@.len() implies !(
                                                    #[trigger] cart_areas@[k]).covers(a) by {}
                                                if 0xD000 <= a < 0xE000 {
                                                    assert(b1_areas@[0].covers(a));
                                                } else if old(self).mode is CGB && a
                                                    == 0xFF70 {
                                                    assert(b1_areas@[1].covers(a));
                                                } else {
                                                    assert forall|k: int|
                                                        0 <= k < b1_areas@.len() implies !(
                                                        #[trigger] b1_areas@[k]).covers(
                                                        a) by {}
                                                    if 0xC000 <= a < 0xD000 {
                                                        assert(b0_areas@[0].covers(a));
                                                    } else {
                                                        assert forall|k: int|
                                                            0 <= k < b0_areas@.len() implies !(
                                                            #[trigger] b0_areas@[k]).covers(
                                                            a) by {}
                                                        assert(ignore_areas@[0].covers(a));
                                                    }
                                                }
                                            }
                                        }
                                    }
                                }
                            }
                        }
                    }
                }
            }
        }
    }

    /// Execute one instruction if the engine supports it and its operands
    /// are in range, returning the cycles consumed; an unsupported
    /// instruction returns nothing and changes nothing. Success and failure
    /// are exact: the step happens if and only if the instruction at the
    /// program counter is safe to execute, and a successful step satisfies
    /// the execution engine's full step relation.
    pub fn step_checked(&mut self) -> (r: Option<u32>)
        requires
            old(self).wf(),
        ensures
            final(self).wf(),
            final(self).mode == old(self).mode,
            r is None ==> *final(self) == *old(self) && !crate::cpu::eval_safe(
                old(self).cpu, old(self).bus),
            r matches Some(c) ==> crate::cpu::eval_rel(old(self).cpu, old(self).bus,
                final(self).cpu, final(self).bus, c),
    {
        if self.cpu.registers.pc() > 0xFFFD {
            return None;
        }
        let bytes = self.bus.get_arr3(self.cpu.registers.pc());
        let instr = Instr::disassemble(bytes.as_slice());
        let sp = self.cpu.registers.sp;
        let safe: bool = match instr.opcode {
            Opcode::INVALID(_) => false,
            Opcode::PUSH(_) => sp >= 2,
            Opcode::POP(_) => sp <= 0xFFFD,
            Opcode::CALL(fc, _) => {
                if self.cpu.flag_match(fc) {
                    sp >= 2 && self.cpu.registers.pc() <= 0xFFFF - instr.n_bytes
                } else {
                    true
                }
            }
            Opcode::RST(_) => sp >= 2 && self.cpu.registers.pc() <= 0xFFFF - instr.n_bytes,
            Opcode::RET(fc) => !self.cpu.flag_match(fc) || sp <= 0xFFFD,
            Opcode::RETI => sp <= 0xFFFD,
            Opcode::LD16(Src::A16(a), _) => a < 0xFFFF,
            _ => true,
        };
        if !safe {
            proof {
                assert(!crate::cpu::eval_safe(self.cpu, self.bus));
            }
            return None;
        }
        Some(self.cpu.step(&mut self.bus))
    }

    /// Run until the frame-complete interrupt fires: step the CPU, tick
    /// the timer, display, serial and audio peripherals with the cycles
    /// consumed, and request every interrupt they raise. The buttons are
    /// latched once at entry; the call returns `FrameComplete` exactly
    /// when the last iteration's display tick raised the frame-complete
    /// interrupt (which is then on record in the request mask), `Fault`
    /// when the guest reached an instruction the engine refuses, after a
    /// run of frameless iterations, and `Starved` only when the whole
    /// cycle budget ran out without a frame. On the hardware a guest that
    /// never finishes a frame simply keeps running; here every loop must
    /// terminate, so the bounded budget stands in for that open loop.
    #[verifier::rlimit(100)]
    #[verifier::spinoff_prover]
    pub fn tick(&mut self, pressed_inputs: &[JoypadInput], frame_buffer: &mut Vec<Color>,
        audio_queue: &mut Vec<u16>) -> (r: TickResult)
        requires
            old(self).wf(),
            old(frame_buffer)@.len() == 160 * 144,
        ensures
            final(self).wf(),
            final(frame_buffer)@.len() == 160 * 144,
            r is FrameComplete ==> final(self).bus.devices.interrupt_controller.unwrap()
                .requested(Interrupt::VBlank),
            r is FrameComplete ==> exists|n: nat, mid: Gameboy, c: u32|
                #![trigger frame_reachable(spec_inputs_latched(*old(self), pressed_inputs@), mid, n), frame_step_rel(mid, *final(self), c, true)]
                frame_reachable(spec_inputs_latched(*old(self), pressed_inputs@), mid, n)
                    && frame_step_rel(mid, *final(self), c, true),
            r is Fault ==> !crate::cpu::eval_safe(final(self).cpu, final(self).bus)
                && exists|n: nat|
                #[trigger] frame_reachable(spec_inputs_latched(*old(self), pressed_inputs@),
                    *final(self), n),
            r is Starved ==> frame_reachable(spec_inputs_latched(*old(self), pressed_inputs@),
                *final(self), 0x100000),
    {
        proof {
            assert(self.bus.map.spec_id(crate::joypad::P1_ADDR) is Some);
        }
        match &mut self.bus.devices.joypad_controller {
            Some(j) => j.set_pressed(pressed_inputs),
            None => unreached(),
        }
        let ghost latched = spec_inputs_latched(*old(self), pressed_inputs@);
        proof {
            assert(*self == latched);
            lemma_frame_reachable_zero(latched);
        }
        let ghost mut n: nat = 0;

        let mut budget: u32 = 0x100000;
        while budget > 0
            invariant
                self.wf(),
                frame_buffer@.len() == 160 * 144,
                latched == spec_inputs_latched(*old(self), pressed_inputs@),
                frame_reachable(latched, *self, n),
                n + budget == 0x100000,
            decreases budget,
        {
            budget = budget - 1;
            let ghost pre_iter = *self;
            let cycles = match self.step_checked() {
                Some(c) => c,
                None => {
                    return TickResult::Fault;
                }
            };
            let ghost stepped_bus = self.bus;

            proof {
                assert(self.bus.map.spec_id(crate::timer::DIV_ADDR) is Some);
                assert(self.bus.map.spec_id(crate::lcd::LCDC_ADDR) is Some);
                assert(self.bus.map.spec_id(crate::serial::SB_ADDR) is Some);
                assert(self.bus.map.spec_id(crate::sound::NR10_ADDR) is Some);
                assert(self.bus.map.spec_id(crate::interrupts::IF_ADDR) is Some);
            }
            let timer_raised = match &mut self.bus.devices.timer {
                Some(t) => t.tick(cycles),
                None => unreached(),
            };
            let lcd_raised = match &mut self.bus.devices.lcd_controller {
                Some(l) => l.tick(cycles, frame_buffer),
                None => unreached(),
            };
            let serial_raised = match &mut self.bus.devices.serial_controller {
                Some(s) => s.tick(cycles),
                None => unreached(),
            };
            match &mut self.bus.devices.sound_controller {
                Some(s) => s.tick(cycles, audio_queue),
                None => unreached(),
            }

            let mut frame_complete = false;
            match &mut self.bus.devices.interrupt_controller {
                Some(ic) => {
                    let ghost if0 = ic.if_reg;
                    match timer_raised {
                        Some(i) => ic.request(i),
                        None => (),
                    }
                    proof {
                        assert(if0 | 0 == if0) by (bit_vector);
                        assert(ic.if_reg == if0 | crate::interrupts::spec_opt_flag(
                            timer_raised));
                    }
                    let ghost if_t = ic.if_reg;
                    match serial_raised {
                        Some(i) => ic.request(i),
                        None => (),
                    }
                    let ghost if1 = if0 | crate::interrupts::spec_opt_flag(timer_raised)
                        | crate::interrupts::spec_opt_flag(serial_raised);
                    proof {
                        assert(if_t | 0 == if_t) by (bit_vector);
                        assert(ic.if_reg == if1);
                        assert(lcd_raised@.take(0) =~= Seq::<Interrupt>::empty());
                    }
                    let mut k: usize = 0;
                    while k < lcd_raised.len()
                        invariant
                            k <= lcd_raised@.len(),
                            frame_complete ==> ic.requested(Interrupt::VBlank),
                            ic.ie_reg == stepped_bus.devices.interrupt_controller.unwrap().ie_reg,
                            ic.if_reg == crate::interrupts::spec_or_flags(if1,
                                lcd_raised@.take(k as int)),
                            frame_complete == lcd_raised@.take(k as int).contains(
                                Interrupt::VBlank),
                        decreases lcd_raised@.len() - k,
                    {
                        let i = lcd_raised[k];
                        let ghost pre_if = ic.if_reg;
                        ic.request(i);
                        proof {
                            crate::interrupts::lemma_request_sets_bit(pre_if, i.spec_flag(),
                                Interrupt::VBlank.spec_flag());
                            assert(lcd_raised@.take(k as int + 1).drop_last()
                                =~= lcd_raised@.take(k as int));
                            assert(lcd_raised@.take(k as int + 1).last() == lcd_raised@[
                                k as int]);
                        }
                        let ghost t0 = lcd_raised@.take(k as int);
                        let ghost t1 = lcd_raised@.take(k as int + 1);
                        if matches!(i, Interrupt::VBlank) {
                            frame_complete = true;
                            proof {
                                assert(t1[k as int] == Interrupt::VBlank);
                                assert(t1.contains(Interrupt::VBlank));
                            }
                        } else {
                            proof {
                                if frame_complete {
                                    let j = choose|j: int|
                                        0 <= j < t0.len() && t0[j] == Interrupt::VBlank;
                                    assert(t1[j] == Interrupt::VBlank);
                                    assert(t1.contains(Interrupt::VBlank));
                                } else {
                                    assert forall|j: int|
                                        0 <= j < t1.len() implies t1[j]
                                        != Interrupt::VBlank by {
                                        if j < k {
                                            assert(t0[j] == t1[j]);
                                        } else {
                                            assert(t1[j] == lcd_raised@[k as int]);
                                        }
                                    }
                                    assert(!t1.contains(Interrupt::VBlank));
                                }
                            }
                        }
                        k = k + 1;
                    }
                    proof {
                        assert(lcd_raised@.take(lcd_raised@.len() as int) =~= lcd_raised@);
                    }
                }
                None => unreached(),
            }
            proof {
                assert(peripheral_phase(stepped_bus, self.bus, cycles, timer_raised,
                    lcd_raised@, serial_raised));
                lemma_frame_step(pre_iter, stepped_bus, *self, cycles, timer_raised,
                    lcd_raised@, serial_raised, frame_complete);
            }
            if frame_complete {
                return TickResult::FrameComplete;
            }
            proof {
                lemma_frame_extend(latched, pre_iter, *self, cycles, n);
                n = n + 1;
            }
        }
        TickResult::Starved
    }

    /// Render the current tile set into a 128-by-128 inspection buffer.
    pub fn fill_tile_framebuffer(&self, frame_buffer: &mut Vec<Color>)
        requires
            self.wf(),
            old(frame_buffer)@.len() >= 128 * 128,
        ensures
            final(frame_buffer)@.len() == old(frame_buffer)@.len(),
    {
        proof {
            assert(self.bus.map.spec_id(crate::lcd::LCDC_ADDR) is Some);
        }
        match &self.bus.devices.lcd_controller {
            Some(l) => l.fill_tile_framebuffer(frame_buffer),
            None => unreached(),
        }
    }

    /// A flat copy of the cartridge's battery RAM, for saving: empty for
    /// the no-banking cartridge, else the bank controller's whole backing
    /// store.
    pub fn dump_ram(&self) -> (r: Vec<u8>)
        requires
            self.wf(),
        ensures
            self.bus.devices.cartridge.unwrap().mbc is RomOnly ==> r@.len() == 0,
            !(self.bus.devices.cartridge.unwrap().mbc is RomOnly) ==> r@
                == self.bus.devices.cartridge.unwrap().mbc.spec_ram()@,
    {
        proof {
            assert(self.bus.map.spec_id(0) is Some);
        }
        match &self.bus.devices.cartridge {
            Some(c) => c.dump_ram(),
            None => unreached(),
        }
    }
}

} // verus!
