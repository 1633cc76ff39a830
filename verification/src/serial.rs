//! The serial port: a data register shifted out bit by bit at a fixed
//! cycle rate, raising an interrupt when a transfer completes. No remote
//! peer is modelled, so ones are shifted in.

use vstd::prelude::*;

use crate::bits::{bit, spec_bit};
use crate::interrupts::Interrupt;

verus! {

/// Address of the serial data register.
pub const SB_ADDR: u16 = 0xFF01;

/// Address of the serial control register.
pub const SC_ADDR: u16 = 0xFF02;

/// Machine cycles per shifted bit at the fixed internal clock rate.
pub const CLOCKS_PER_SERIAL_BIT_SHIFT: u32 = 128;

pub struct SerialController {
    pub sb: u8,
    pub sc: u8,
    pub clocks_to_shift: u32,
}

impl SerialController {
    pub fn new() -> (r: SerialController)
        ensures
            r.sb == 0 && r.sc == 0 && r.clocks_to_shift == 0,
    {
        SerialController { sb: 0, sc: 0, clocks_to_shift: 0 }
    }

    /// The address ranges this controller answers for: the two serial
    /// registers.
    pub fn mapped_areas() -> (r: Vec<crate::memory::MappedArea>)
        ensures
            r@.len() == 1,
            forall|k: int| 0 <= k < r@.len() ==> (#[trigger] r@[k]).wf(),
            r@[0].0 == SB_ADDR && r@[0].1 == 2,
    {
        let mut v: Vec<crate::memory::MappedArea> = Vec::new();
        v.push(crate::memory::MappedArea(SB_ADDR, 2));
        v
    }

    /// A transfer is active while both the start bit and the internal-clock
    /// bit of the control register are set.
    pub open spec fn active(self) -> bool {
        spec_bit(self.sc, 7) == 1 && spec_bit(self.sc, 0) == 1
    }

    /// How one tick relates the port before to the port after, with the
    /// interrupt it raised: an idle port is untouched; an active transfer
    /// counts down by exactly `clocks` cycles, and when the countdown runs
    /// out a one is shifted into the data register, the start bit drops,
    /// and the transfer-complete interrupt is raised.
    pub open spec fn tick_rel(self, post: SerialController, clocks: u32, raised: Option<
        Interrupt>) -> bool {
        &&& (!self.active() ==> post == self && raised is None)
        &&& (self.active() && self.clocks_to_shift < clocks ==> {
            &&& post.sb == (self.sb << 1) | 1
            &&& post.sc == self.sc ^ 0x80
            &&& post.clocks_to_shift == self.clocks_to_shift
            &&& raised == Some(Interrupt::Serial)
        })
        &&& (self.active() && self.clocks_to_shift >= clocks ==> {
            &&& post.sb == self.sb
            &&& post.sc == self.sc
            &&& post.clocks_to_shift == self.clocks_to_shift - clocks
            &&& raised is None
        })
    }

    /// Advance an active transfer; when its countdown runs out, a one is
    /// shifted into the data register, the start bit drops, and the
    /// transfer-complete interrupt is raised.
    pub fn tick(&mut self, clocks: u32) -> (r: Option<Interrupt>)
        ensures
            old(self).tick_rel(*final(self), clocks, r),
    {
        if bit(self.sc, 7) == 1 && bit(self.sc, 0) == 1 {
            if self.clocks_to_shift < clocks {
                self.sb = (self.sb << 1) | 0x1;
                self.sc = self.sc ^ 0x80;
                return Some(Interrupt::Serial);
            } else {
                self.clocks_to_shift = self.clocks_to_shift - clocks;
            }
        }
        None
    }

    /// Reads of the two serial registers; other addresses are never routed
    /// here by the boot-time memory map.
    pub open spec fn read8(self, addr: u16) -> u8 {
        if addr == SB_ADDR {
            self.sb
        } else if addr == SC_ADDR {
            self.sc
        } else {
            0xFF
        }
    }

    /// Writes to the two serial registers: raising the start bit arms the
    /// per-bit countdown.
    pub open spec fn write8(self, addr: u16, byte: u8) -> SerialController {
        if addr == SB_ADDR {
            SerialController { sb: byte, ..self }
        } else if addr == SC_ADDR {
            SerialController {
                sc: byte,
                clocks_to_shift: if spec_bit(self.sc, 7) == 0 && spec_bit(byte, 7) == 1 {
                    CLOCKS_PER_SERIAL_BIT_SHIFT as u32
                } else {
                    self.clocks_to_shift
                },
                ..self
            }
        } else {
            self
        }
    }

    pub fn get8(&self, addr: u16) -> (r: u8)
        ensures
            r == self.read8(addr),
    {
        if addr == SB_ADDR {
            self.sb
        } else if addr == SC_ADDR {
            self.sc
        } else {
            0xFF
        }
    }

    pub fn set8(&mut self, addr: u16, byte: u8)
        ensures
            *final(self) == old(self).write8(addr, byte),
    {
        if addr == SB_ADDR {
            self.sb = byte;
        } else if addr == SC_ADDR {
            if bit(self.sc, 7) == 0 && bit(byte, 7) == 1 {
                self.clocks_to_shift = CLOCKS_PER_SERIAL_BIT_SHIFT;
            }
            self.sc = byte;
        }
    }
}

} // verus!
