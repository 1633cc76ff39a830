//! The volume envelope shared by the tone and noise channels: a four-bit
//! volume stepped up or down at a programmed period.

use vstd::prelude::*;

use crate::bits::{bit, spec_bit};


verus! {

/// Machine cycles per envelope step: the clock frequency divided by 64.
pub const ENVELOPE_STEP_CLOCKS: u32 = 16384;

#[derive(Debug, Clone, Copy, PartialEq, Eq, Structural)]
pub enum Direction {
    Increase,
    Decrease,
}

pub struct VolumeEnvelope {
    pub volume: u8,
    pub direction: Direction,
    pub period: u8,
    pub ticks_left: u32,
}

impl VolumeEnvelope {
    pub open spec fn wf(self) -> bool {
        self.volume <= 15 && self.period <= 7
    }

    /// Decode the envelope register: volume in the top nibble, direction
    /// in bit 3, period in the low three bits.
    pub fn new_from_byte(byte: u8) -> (r: VolumeEnvelope)
        ensures
            r.wf(),
            r.volume == byte >> 4,
            r.direction == (if spec_bit(byte, 3) == 0 {
                Direction::Decrease
            } else {
                Direction::Increase
            }),
            r.period == byte & 0x7,
    {
        let volume = byte >> 4;
        let direction = if bit(byte, 3) == 0 {
            Direction::Decrease
        } else {
            Direction::Increase
        };
        let period = byte & 0x7;
        proof {
            assert(byte >> 4 <= 15 && byte & 0x7 <= 7) by (bit_vector);
        }
        VolumeEnvelope {
            volume,
            direction,
            period,
            ticks_left: (period as u32) * ENVELOPE_STEP_CLOCKS,
        }
    }

    /// One machine cycle: when the programmed period elapses, step the
    /// volume one unit toward its bound; a zero period freezes it.
    pub fn tick(&mut self)
        requires
            old(self).wf(),
        ensures
            final(self).wf(),
            final(self).period == old(self).period,
            final(self).direction == old(self).direction,
            old(self).period == 0 ==> *final(self) == *old(self),
    {
        if self.period == 0 {
            return ;
        }
        if self.ticks_left == 0 {
self.ticks_left = (self.period as u32) * ENVELOPE_STEP_CLOCKS;
            match self.direction {
                Direction::Decrease => {
                    if self.volume > 0 {
                        self.volume = self.volume - 1;
                    }
                }
                Direction::Increase => {
                    if self.volume < 15 {
                        self.volume = self.volume + 1;
                    }
                }
            }
        }
        self.ticks_left = self.ticks_left - 1;
    }

    /// Whether the channel's output stage is powered at all.
    pub fn is_on(&self) -> (r: bool)
        ensures
            r == (self.volume > 0),
    {
        self.volume > 0
    }

    /// Scale a one-bit waveform sample by the current volume.
    pub fn apply(&self, input: u8) -> (r: u8)
        requires
            self.wf(),
            input <= 1,
        ensures
            r == input * self.volume,
            r <= 15,
    {
        if input == 0 {
            0
        } else {
            self.volume
        }
    }
}

} // verus!
