//! The joypad: the pressed-button state is latched into two low nibbles
//! (buttons and directions), and the register at 0xFF00 selects which nibble
//! reads back, with pressed keys reading as zero bits.

use vstd::prelude::*;

use crate::bits::{bit, spec_bit};

verus! {

/// Address of the joypad register.
pub const P1_ADDR: u16 = 0xFF00;

#[derive(Debug, Clone, Copy, PartialEq, Eq, Structural)]
pub enum JoypadInput {
    Up,
    Down,
    Left,
    Right,
    Start,
    Select,
    A,
    B,
}

fn pressed_contains(pressed: &[JoypadInput], x: JoypadInput) -> (r: bool)
    ensures
        r == pressed@.contains(x),
{
    let mut i: usize = 0;
    while i < pressed.len()
        invariant
            i <= pressed@.len(),
            forall|j: int| 0 <= j < i ==> pressed@[j] != x,
        decreases pressed@.len() - i,
    {
        if *vstd::slice::slice_index_get(pressed, i) == x {
            assert(pressed@[i as int] == x);
            return true;
        }
        i = i + 1;
    }
    false
}

/// The low nibble latched for one group of four keys: a key in the group
/// contributes a zero bit when pressed and a one bit when released.
pub open spec fn spec_nib(
    pressed: Seq<JoypadInput>,
    k3: JoypadInput,
    k2: JoypadInput,
    k1: JoypadInput,
    k0: JoypadInput,
) -> u8 {
    ((if pressed.contains(k3) { 0int } else { 8 })
        + (if pressed.contains(k2) { 0int } else { 4 })
        + (if pressed.contains(k1) { 0int } else { 2 })
        + (if pressed.contains(k0) { 0int } else { 1 })) as u8
}

pub struct JoypadController {
    pub p1: u8,
    pub direction_nib: u8,
    pub button_nib: u8,
}

impl JoypadController {
    pub fn new() -> (r: JoypadController)
        ensures
            r.p1 == 0x3F && r.direction_nib == 0xF && r.button_nib == 0xF,
    {
        JoypadController { p1: 0x3F, direction_nib: 0xF, button_nib: 0xF }
    }

    /// The address range this controller answers for: the joypad
    /// register.
    pub fn mapped_areas() -> (r: Vec<crate::memory::MappedArea>)
        ensures
            r@.len() == 1,
            forall|k: int| 0 <= k < r@.len() ==> (#[trigger] r@[k]).wf(),
            r@[0].0 == P1_ADDR && r@[0].1 == 1,
    {
        let mut v: Vec<crate::memory::MappedArea> = Vec::new();
        v.push(crate::memory::MappedArea(P1_ADDR, 1));
        v
    }

    /// Latch the pressed-key set into the two nibbles.
    pub fn set_pressed(&mut self, pressed: &[JoypadInput])
        ensures
            final(self).p1 == old(self).p1,
            final(self).button_nib == spec_nib(
                pressed@,
                JoypadInput::Start,
                JoypadInput::Select,
                JoypadInput::B,
                JoypadInput::A,
            ),
            final(self).direction_nib == spec_nib(
                pressed@,
                JoypadInput::Down,
                JoypadInput::Up,
                JoypadInput::Left,
                JoypadInput::Right,
            ),
    {
        let mut button: u8 = 0;
        if !pressed_contains(pressed, JoypadInput::Start) {
            button = button + 8;
        }
        if !pressed_contains(pressed, JoypadInput::Select) {
            button = button + 4;
        }
        if !pressed_contains(pressed, JoypadInput::B) {
            button = button + 2;
        }
        if !pressed_contains(pressed, JoypadInput::A) {
            button = button + 1;
        }
        self.button_nib = button;

        let mut direction: u8 = 0;
        if !pressed_contains(pressed, JoypadInput::Down) {
            direction = direction + 8;
        }
        if !pressed_contains(pressed, JoypadInput::Up) {
            direction = direction + 4;
        }
        if !pressed_contains(pressed, JoypadInput::Left) {
            direction = direction + 2;
        }
        if !pressed_contains(pressed, JoypadInput::Right) {
            direction = direction + 1;
        }
        self.direction_nib = direction;
    }

    /// The nibble the register currently selects: buttons when bit 5 is
    /// low, directions when bit 4 is low, otherwise all ones.
    pub open spec fn spec_current_nib(self) -> u8 {
        if spec_bit(self.p1, 5) == 0 {
            self.button_nib
        } else if spec_bit(self.p1, 4) == 0 {
            self.direction_nib
        } else {
            0xF
        }
    }

    pub fn current_nib(&self) -> (r: u8)
        ensures
            r == self.spec_current_nib(),
    {
        if bit(self.p1, 5) == 0 {
            self.button_nib
        } else if bit(self.p1, 4) == 0 {
            self.direction_nib
        } else {
            0xF
        }
    }

    /// A read combines the two writable select bits with the selected
    /// nibble; other addresses are never routed here.
    pub open spec fn read8(self, addr: u16) -> u8 {
        if addr == P1_ADDR {
            (0x30 & self.p1) | self.spec_current_nib()
        } else {
            0xFF
        }
    }

    /// Only the two select bits are writable.
    pub open spec fn write8(self, addr: u16, byte: u8) -> JoypadController {
        if addr == P1_ADDR {
            JoypadController { p1: byte & 0x30, ..self }
        } else {
            self
        }
    }

    pub fn get8(&self, addr: u16) -> (r: u8)
        ensures
            r == self.read8(addr),
    {
        if addr == P1_ADDR {
            (0x30 & self.p1) | self.current_nib()
        } else {
            0xFF
        }
    }

    pub fn set8(&mut self, addr: u16, byte: u8)
        ensures
            *final(self) == old(self).write8(addr, byte),
    {
        if addr == P1_ADDR {
            self.p1 = byte & 0x30;
        }
    }
}

} // verus!
