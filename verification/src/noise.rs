//! The noise channel: a linear-feedback shift register clocked at a
//! programmable rate, shaped by the length counter and volume envelope.

use vstd::prelude::*;

use crate::bits::{bit, spec_bit};
use crate::envelope::VolumeEnvelope;
use crate::frame_sequencer::FrameSequencer;
use crate::length_counter::{LengthCounter, LengthCounterAction};
use crate::timer::CLOCK_FREQ;

verus! {

/// The feedback shift register with its clocking parameters.
pub struct Lfsr {
    pub bits: u16,
    pub freq_shift: u8,
    pub len: u8,
    pub divisor_code: u8,
    pub timer: u16,
}

impl Lfsr {
    pub open spec fn wf(self) -> bool {
        self.freq_shift <= 15 && (self.len == 7 || self.len == 15) && self.divisor_code <= 7
    }

    /// Decode the noise register: clock shift in the top nibble, register
    /// width in bit 3, divisor code in the low three bits.
    pub fn new_from_byte(byte: u8) -> (r: Lfsr)
        ensures
            r.wf(),
            r.freq_shift == (byte >> 4) & 0xF,
            r.len == (if spec_bit(byte, 3) == 0 { 15int } else { 7 }),
            r.divisor_code == byte & 0x7,
    {
        proof {
            assert((byte >> 4) & 0xF <= 15 && byte & 0x7 <= 7) by (bit_vector);
        }
        Lfsr {
            bits: 0x0000,
            freq_shift: (byte >> 4) & 0xF,
            len: if bit(byte, 3) == 0 {
                15
            } else {
                7
            },
            divisor_code: byte & 0x7,
            timer: 0,
        }
    }

    /// One machine cycle: when the timer runs out, shift the register and
    /// feed back the two low bits' parity.
    fn tick(&mut self)
        requires
            old(self).wf(),
        ensures
            final(self).wf(),
    {
        if self.timer == 0 {
            self.timer = self.frequency();
            let fed = (self.bits & 0x1) ^ ((self.bits >> 1) & 0x1);
            self.bits = if self.len == 7 {
                (fed << 6) | ((self.bits >> 1) & 0x3FBF)
            } else {
                (fed << 14) | ((self.bits >> 1) & 0x3FFF)
            };
        } else {
            self.timer = self.timer - 1;
        }
    }

    /// The inverted low bit is the channel's one-bit sample.
    fn sample(&self) -> (r: u8)
        ensures
            r <= 1,
    {
        let low = (self.bits & 0x1) ^ 0x1;
        proof {
            let b = self.bits;
            assert((b & 0x1) ^ 0x1 <= 1) by (bit_vector);
        }
        low as u8
    }

    /// A trigger fills the register with ones and restarts its timer.
    fn reset(&mut self)
        requires
            old(self).wf(),
        ensures
            final(self).wf(),
            final(self).bits == 0x7FFF,
    {
        self.bits = 0x7FFF;
        self.timer = self.frequency();
    }

    /// Machine cycles between shifts, from the divisor code and clock
    /// shift.
    fn frequency(&self) -> (r: u16)
        requires
            self.wf(),
    {
        let c: u32 = 524288;
        let d: u32 = if self.divisor_code == 0 {
            c * 2
        } else {
            c / (self.divisor_code as u32)
        };
        let hz0 = d >> ((self.freq_shift + 1) as u32);
        let hz = if hz0 == 0 {
            1
        } else {
            hz0
        };
        #[verifier::truncate] ((CLOCK_FREQ / hz) as u16)
    }
}

/// The noise channel.
pub struct Noise {
    pub dac_on: bool,
    pub enabled: bool,
    pub lfsr: Lfsr,
    pub volume_envelope: VolumeEnvelope,
    pub length_counter: LengthCounter,
}

impl Noise {
    pub open spec fn wf(self) -> bool {
        &&& self.lfsr.wf()
        &&& self.volume_envelope.wf()
        &&& self.length_counter.wf()
        &&& self.length_counter.max == 64
    }

    pub fn new() -> (r: Noise)
        ensures
            r.wf(),
            !r.enabled,
    {
        Noise {
            dac_on: false,
            enabled: false,
            lfsr: Lfsr::new_from_byte(0xFF),
            volume_envelope: VolumeEnvelope::new_from_byte(0x00),
            length_counter: LengthCounter::new(64),
        }
    }

    pub fn is_on(&self) -> (r: bool)
        ensures
            r == (self.dac_on && self.enabled),
    {
        self.dac_on && self.enabled
    }

    /// One machine cycle: run the length counter on its steps, then the
    /// shift register and envelope while audible.
    pub fn tick(&mut self, fs: &FrameSequencer)
        requires
            old(self).wf(),
        ensures
            final(self).wf(),
    {
        if fs.is_length_counter() {
            match self.length_counter.tick() {
                LengthCounterAction::Nop => {}
                LengthCounterAction::Disable => {
                    self.enabled = false;
                    return ;
                }
            }
        }
        if !self.dac_on || !self.enabled {
            return ;
        }
        self.lfsr.tick();
        self.volume_envelope.tick();
    }

    /// The channel's current sample: the register bit scaled by the
    /// envelope, or silence.
    pub fn sample(&self) -> (r: u8)
        requires
            self.wf(),
        ensures
            r <= 15,
            !self.enabled ==> r == 0,
    {
        if self.enabled {
            self.volume_envelope.apply(self.lfsr.sample())
        } else {
            0
        }
    }

    /// Install a freshly decoded shift register.
    pub fn set_lsrf(&mut self, lfsr: Lfsr)
        requires
            old(self).wf(),
            lfsr.wf(),
        ensures
            final(self).wf(),
            final(self).lfsr == lfsr,
    {
        self.lfsr = lfsr;
    }

    pub fn set_length(&mut self, length: u8)
        requires
            old(self).wf(),
            length < 64,
        ensures
            final(self).wf(),
    {
        self.length_counter.set_length(length);
    }

    pub fn set_length_enabled(&mut self, enabled: bool, fs: &FrameSequencer)
        requires
            old(self).wf(),
        ensures
            final(self).wf(),
    {
        match self.length_counter.set_enabled(enabled, fs.next_is_length_counter()) {
            LengthCounterAction::Nop => {}
            LengthCounterAction::Disable => {
                self.enabled = false;
            }
        }
    }

    /// Install a new envelope; a zero-volume envelope powers the output
    /// stage down and silences the channel.
    pub fn set_volume_envelope(&mut self, volume_envelope: VolumeEnvelope)
        requires
            old(self).wf(),
            volume_envelope.wf(),
        ensures
            final(self).wf(),
            final(self).dac_on == (volume_envelope.volume > 0),
            !final(self).dac_on ==> !final(self).enabled,
    {
        self.volume_envelope = volume_envelope;
        self.dac_on = self.volume_envelope.is_on();
        if !self.dac_on {
            self.enabled = false;
        }
    }

    /// A trigger write: wake the channel if powered, reload an expired
    /// length counter and refill the shift register.
    pub fn restart(&mut self, will_enable: bool)
        requires
            old(self).wf(),
        ensures
            final(self).wf(),
    {
        if self.dac_on {
            self.enabled = true;
        }
        self.length_counter.trigger(will_enable);
        self.lfsr.reset();
    }
}

} // verus!
