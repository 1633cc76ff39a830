//! The audio controller: four channels mixed into stereo output, a bank
//! of registers with fixed read-back masks, and a master power switch that
//! clears the register file. The mixed output is produced in integer
//! digital-to-analogue units; turning units into analogue samples is the
//! caller's concern.

use vstd::prelude::*;

use crate::bits::{bit, spec_bit};
use crate::envelope::VolumeEnvelope;
use crate::frame_sequencer::FrameSequencer;
use crate::noise::{Lfsr, Noise};
use crate::square::SquareWave;
use crate::wave::Wave;

verus! {

/// First audio register address.
pub const NR10_ADDR: u16 = 0xFF10;

/// Master power/status register address.
pub const NR52_ADDR: u16 = 0xFF26;

/// First wave-table address.
pub const WAVE_START: u16 = 0xFF30;

/// Last wave-table address, inclusive.
pub const WAVE_END: u16 = 0xFF3F;

/// The mask OR-ed into reads of each register, as the hardware returns
/// unused bits set.
pub open spec fn spec_reg_or(offset: int) -> u8 {
    seq![
        0x80u8, 0x3Fu8, 0x00u8, 0xFFu8, 0xBFu8, 0xFFu8, 0x3Fu8, 0x00u8,
        0xFFu8, 0xBFu8, 0x7Fu8, 0xFFu8, 0x9Fu8, 0xFFu8, 0xBFu8, 0xFFu8,
        0xFFu8, 0x00u8, 0x00u8, 0xBFu8, 0x00u8, 0x00u8, 0x70u8, 0xFFu8,
        0xFFu8, 0xFFu8, 0xFFu8, 0xFFu8, 0xFFu8, 0xFFu8, 0xFFu8, 0xFFu8,
        0x00u8, 0x00u8, 0x00u8, 0x00u8, 0x00u8, 0x00u8, 0x00u8, 0x00u8,
        0x00u8, 0x00u8, 0x00u8, 0x00u8, 0x00u8, 0x00u8, 0x00u8, 0x00u8
    ][offset]
}

fn reg_or(offset: usize) -> (r: u8)
    requires
        offset < 48,
    ensures
        r == spec_reg_or(offset as int),
{
    match offset {
        0 => 0x80,
        1 => 0x3F,
        2 => 0x00,
        3 => 0xFF,
        4 => 0xBF,
        5 => 0xFF,
        6 => 0x3F,
        7 => 0x00,
        8 => 0xFF,
        9 => 0xBF,
        10 => 0x7F,
        11 => 0xFF,
        12 => 0x9F,
        13 => 0xFF,
        14 => 0xBF,
        15 => 0xFF,
        16 => 0xFF,
        17 => 0x00,
        18 => 0x00,
        19 => 0xBF,
        20 => 0x00,
        21 => 0x00,
        22 => 0x70,
        23 => 0xFF,
        24 => 0xFF,
        25 => 0xFF,
        26 => 0xFF,
        27 => 0xFF,
        28 => 0xFF,
        29 => 0xFF,
        30 => 0xFF,
        31 => 0xFF,
        32 => 0x00,
        33 => 0x00,
        34 => 0x00,
        35 => 0x00,
        36 => 0x00,
        37 => 0x00,
        38 => 0x00,
        39 => 0x00,
        40 => 0x00,
        41 => 0x00,
        42 => 0x00,
        43 => 0x00,
        44 => 0x00,
        45 => 0x00,
        46 => 0x00,
        _ => 0x00,
    }
}

pub struct SoundController {
    pub regs: Vec<u8>,
    pub on: bool,
    pub square_a: SquareWave,
    pub square_b: SquareWave,
    pub wave: Wave,
    pub noise: Noise,
    pub nr50: u8,
    pub nr51: u8,
    pub frame_sequencer: FrameSequencer,
}

impl SoundController {
    pub open spec fn wf(self) -> bool {
        &&& self.regs@.len() == 48
        &&& self.square_a.wf()
        &&& self.square_b.wf()
        &&& self.wave.wf()
        &&& self.noise.wf()
        &&& self.frame_sequencer.wf()
    }

    pub fn new() -> (r: SoundController)
        ensures
            r.wf(),
            !r.on,
    {
        SoundController {
            regs: crate::devices::filled_vec(48, 0),
            on: false,
            square_a: SquareWave::new(),
            square_b: SquareWave::new(),
            wave: Wave::new(),
            noise: Noise::new(),
            nr50: 0,
            nr51: 0,
            frame_sequencer: FrameSequencer::new(),
        }
    }

    /// The address range this controller answers for: the audio register
    /// block including the wave table.
    pub fn mapped_areas() -> (r: Vec<crate::memory::MappedArea>)
        ensures
            r@.len() == 1,
            forall|k: int| 0 <= k < r@.len() ==> (#[trigger] r@[k]).wf(),
            r@[0].0 == NR10_ADDR && r@[0].1 == 48,
    {
        let mut v: Vec<crate::memory::MappedArea> = Vec::new();
        v.push(crate::memory::MappedArea(NR10_ADDR, 48));
        v
    }

    /// Advance the mixer by `clocks` machine cycles, pushing one stereo
    /// pair of integer output units per cycle (a single silent pair while
    /// powered off). A unit is a channel sample sum scaled by the master
    /// volume; the caller divides by 480 to normalise.
    pub fn tick(&mut self, clocks: u32, audio_queue: &mut Vec<u16>)
        requires
            old(self).wf(),
        ensures
            final(self).wf(),
            final(self).on == old(self).on,
            !old(self).on ==> final(audio_queue)@.len() == old(audio_queue)@.len() + 2,
            old(self).on ==> final(audio_queue)@.len() == old(audio_queue)@.len() + 2 * clocks,
            forall|i: int|
                0 <= i < final(audio_queue)@.len() ==> (i < old(audio_queue)@.len() ==> final(
                    audio_queue)@[i] == old(audio_queue)@[i]),
            forall|i: int|
                old(audio_queue)@.len() <= i < final(audio_queue)@.len() ==> final(
                    audio_queue)@[i] <= 480,
    {
        if !self.on {
            audio_queue.push(0);
            audio_queue.push(0);
            return ;
        }

        let mut k: u32 = 0;
        while k < clocks
            invariant
                self.wf(),
                self.on == old(self).on,
                k <= clocks,
                audio_queue@.len() == old(audio_queue)@.len() + 2 * k,
                forall|i: int|
                    0 <= i < old(audio_queue)@.len() ==> audio_queue@[i] == old(
                        audio_queue)@[i],
                forall|i: int|
                    old(audio_queue)@.len() <= i < audio_queue@.len() ==> audio_queue@[i]
                        <= 480,
            decreases clocks - k,
        {
            self.frame_sequencer.tick();
            self.square_a.tick(&self.frame_sequencer);
            self.square_b.tick(&self.frame_sequencer);
            self.wave.tick(&self.frame_sequencer);
            self.noise.tick(&self.frame_sequencer);

            let square_a_sample = self.square_a.sample() as u16;
            let square_b_sample = self.square_b.sample() as u16;
            let wave_sample = self.wave.sample() as u16;
            let noise_sample = self.noise.sample() as u16;

            let mut l_sample: u16 = 0;
            let mut r_sample: u16 = 0;
            if bit(self.nr51, 4) == 1 {
                l_sample = l_sample + square_a_sample;
            }
            if bit(self.nr51, 0) == 1 {
                r_sample = r_sample + square_a_sample;
            }
            if bit(self.nr51, 5) == 1 {
                l_sample = l_sample + square_b_sample;
            }
            if bit(self.nr51, 1) == 1 {
                r_sample = r_sample + square_b_sample;
            }
            if bit(self.nr51, 6) == 1 {
                l_sample = l_sample + wave_sample;
            }
            if bit(self.nr51, 2) == 1 {
                r_sample = r_sample + wave_sample;
            }
            if bit(self.nr51, 7) == 1 {
                l_sample = l_sample + noise_sample;
            }
            if bit(self.nr51, 3) == 1 {
                r_sample = r_sample + noise_sample;
            }

            proof {
                let n = self.nr50;
                assert((n / 16) & 0x7 <= 7 && n & 0x7 <= 7) by (bit_vector);
            }
            let l_volume = ((self.nr50 / 16) & 0x7) as u16 + 1;
            let r_volume = (self.nr50 & 0x7) as u16 + 1;
            proof {
                assert(l_sample * l_volume <= 480) by (nonlinear_arith)
                    requires
                        l_sample <= 60,
                        l_volume <= 8,
                ;
                assert(r_sample * r_volume <= 480) by (nonlinear_arith)
                    requires
                        r_sample <= 60,
                        r_volume <= 8,
                ;
            }
            audio_queue.push(l_sample * l_volume);
            audio_queue.push(r_sample * r_volume);
            k = k + 1;
        }
    }

    /// The power-off sequence: every register below the power switch is
    /// written back as zero, which silences and resets all four channels.
    fn power_off(&mut self)
        requires
            old(self).wf(),
        ensures
            final(self).wf(),
            forall|i: int| 0 <= i < 0x16 ==> final(self).regs@[i] == 0,
            final(self).nr50 == 0,
            final(self).nr51 == 0,
    {
        let mut i: usize = 0;
        while i < 0x16
            invariant
                self.wf(),
                i <= 0x16,
                forall|j: int| 0 <= j < i ==> self.regs@[j] == 0,
                forall|j: int|
                    0x16 <= j < 48 ==> self.regs@[j] == old(self).regs@[j],
            decreases 0x16 - i,
        {
            self.regs.set(i, 0);
            i = i + 1;
        }
        self.square_a.update_sweep(0);
        self.square_a.set_duty(0);
        self.square_a.set_length(0);
        self.square_a.set_volume_envelope(VolumeEnvelope::new_from_byte(0));
        self.square_a.set_freq_lower(0);
        self.square_a.set_freq_upper(0);
        self.square_a.set_length_enabled(false, &self.frame_sequencer);
        self.square_b.set_duty(0);
        self.square_b.set_length(0);
        self.square_b.set_volume_envelope(VolumeEnvelope::new_from_byte(0));
        self.square_b.set_freq_lower(0);
        self.square_b.set_freq_upper(0);
        self.square_b.set_length_enabled(false, &self.frame_sequencer);
        self.wave.set_dac(false);
        self.wave.set_length(0);
        self.wave.set_volume(0);
        self.wave.set_freq_lower(0);
        self.wave.set_freq_upper(0);
        self.wave.set_length_enabled(false, &self.frame_sequencer);
        self.noise.set_length(0);
        self.noise.set_volume_envelope(VolumeEnvelope::new_from_byte(0));
        self.noise.set_lsrf(Lfsr::new_from_byte(0));
        self.noise.set_length_enabled(false, &self.frame_sequencer);
        self.nr50 = 0;
        self.nr51 = 0;
    }

    /// The byte a read returns: each register OR-ed with its fixed mask;
    /// the power/status register also reports which channels are audible.
    pub open spec fn read8(self, addr: u16) -> u8 {
        if !(NR10_ADDR <= addr <= WAVE_END) {
            0xFF
        } else {
            let offset = addr - NR10_ADDR;
            if addr == NR52_ADDR {
                let v0: u8 = if self.on {
                    0x80 | spec_reg_or(offset as int)
                } else {
                    spec_reg_or(offset as int)
                };
                let v1: u8 = if self.square_a.dac_on && self.square_a.enabled {
                    v0 | 0x1
                } else {
                    v0
                };
                let v2: u8 = if self.square_b.dac_on && self.square_b.enabled {
                    v1 | 0x2
                } else {
                    v1
                };
                let v3: u8 = if self.wave.dac_on && self.wave.enabled {
                    v2 | 0x4
                } else {
                    v2
                };
                if self.noise.dac_on && self.noise.enabled {
                    v3 | 0x8
                } else {
                    v3
                }
            } else {
                self.regs@[offset as int] | spec_reg_or(offset as int)
            }
        }
    }

    /// Reads of the audio registers, each OR-ed with its fixed mask; the
    /// power/status register also reports which channels are audible.
    pub fn get8(&self, addr: u16) -> (r: u8)
        requires
            self.wf(),
            NR10_ADDR <= addr <= WAVE_END,
        ensures
            r == self.read8(addr),
    {
        let offset = (addr - NR10_ADDR) as usize;
        if addr == NR52_ADDR {
            let mut val: u8 = if self.on {
                0x80 | reg_or(offset)
            } else {
                reg_or(offset)
            };
            if self.square_a.is_on() {
                val = val | 0x1;
            }
            if self.square_b.is_on() {
                val = val | 0x2;
            }
            if self.wave.is_on() {
                val = val | 0x4;
            }
            if self.noise.is_on() {
                val = val | 0x8;
            }
            val
        } else {
            self.regs[offset] | reg_or(offset)
        }
    }

    /// How a write relates the state before to the state after: the power
    /// switch sets or clears the whole block; while powered off every
    /// other write is absorbed; while powered, the byte is stored and the
    /// affected channel reconfigured.
    pub open spec fn write8_rel(self, post: SoundController, addr: u16, byte: u8) -> bool {
        &&& post.wf()
        &&& if addr == NR52_ADDR {
            post.on == (crate::bits::spec_bit(byte, 7) == 1)
        } else if !self.on {
            post == self
        } else if NR10_ADDR <= addr <= WAVE_END {
            post.on == self.on && post.regs@ == self.regs@.update(addr - NR10_ADDR, byte)
        } else {
            post == self
        }
    }

    /// Writes to the audio registers: the power switch clears the block
    /// when dropped; while powered, each register stores its byte and
    /// reconfigures the channel it belongs to.
    pub fn set8(&mut self, addr: u16, byte: u8)
        requires
            old(self).wf(),
            NR10_ADDR <= addr <= WAVE_END,
        ensures
            final(self).wf(),
            old(self).write8_rel(*final(self), addr, byte),
    {
        if addr == NR52_ADDR {
            if bit(byte, 7) == 0 {
                self.power_off();
            }
            self.on = bit(byte, 7) == 1;
            return ;
        }
        if !self.on {
            return ;
        }
        let offset = (addr - NR10_ADDR) as usize;
        self.regs.set(offset, byte);
        if addr == 0xFF24 {
            self.nr50 = byte;
        } else if addr == 0xFF25 {
            self.nr51 = byte;
        } else if addr == 0xFF10 {
            self.square_a.update_sweep(byte);
        } else if addr == 0xFF11 {
            proof {
                assert(byte >> 6 <= 3 && byte & 0x3F < 64) by (bit_vector);
            }
            self.square_a.set_duty(byte >> 6);
            self.square_a.set_length(byte & 0x3F);
        } else if addr == 0xFF12 {
            self.square_a.set_volume_envelope(VolumeEnvelope::new_from_byte(byte));
        } else if addr == 0xFF13 {
            self.square_a.set_freq_lower(byte);
        } else if addr == 0xFF14 {
            proof {
                assert(byte & 0x7 <= 7) by (bit_vector);
            }
            self.square_a.set_freq_upper(byte & 0x7);
            if bit(byte, 7) == 1 {
                self.square_a.trigger(bit(byte, 6) == 1);
            }
            self.square_a.set_length_enabled(bit(byte, 6) == 1, &self.frame_sequencer);
        } else if addr == 0xFF16 {
            proof {
                assert(byte >> 6 <= 3 && byte & 0x3F < 64) by (bit_vector);
            }
            self.square_b.set_duty(byte >> 6);
            self.square_b.set_length(byte & 0x3F);
        } else if addr == 0xFF17 {
            self.square_b.set_volume_envelope(VolumeEnvelope::new_from_byte(byte));
        } else if addr == 0xFF18 {
            self.square_b.set_freq_lower(byte);
        } else if addr == 0xFF19 {
            if bit(byte, 7) == 1 {
                self.square_b.trigger(false);
            }
            proof {
                assert(byte & 0x7 <= 7) by (bit_vector);
            }
            self.square_b.set_freq_upper(byte & 0x7);
            self.square_b.set_length_enabled(bit(byte, 6) == 1, &self.frame_sequencer);
        } else if addr == 0xFF1A {
            self.wave.set_dac(bit(byte, 7) == 1);
        } else if addr == 0xFF1B {
            self.wave.set_length(byte);
        } else if addr == 0xFF1C {
            proof {
                assert((byte >> 5) & 0x3 <= 3) by (bit_vector);
            }
            self.wave.set_volume((byte >> 5) & 0x3);
        } else if addr == 0xFF1D {
            self.wave.set_freq_lower(byte);
        } else if addr == 0xFF1E {
            if bit(byte, 7) == 1 {
                self.wave.trigger(false);
            }
            proof {
                assert(byte & 0x7 <= 7) by (bit_vector);
            }
            self.wave.set_freq_upper(byte & 0x7);
            self.wave.set_length_enabled(bit(byte, 6) == 1, &self.frame_sequencer);
        } else if WAVE_START <= addr && addr <= WAVE_END {
            self.wave.set_wave((addr - WAVE_START) as u8, byte);
        } else if addr == 0xFF20 {
            proof {
                assert(byte & 0x3F < 64) by (bit_vector);
            }
            self.noise.set_length(byte & 0x3F);
        } else if addr == 0xFF21 {
            self.noise.set_volume_envelope(VolumeEnvelope::new_from_byte(byte));
        } else if addr == 0xFF22 {
            self.noise.set_lsrf(Lfsr::new_from_byte(byte));
        } else if addr == 0xFF23 {
            if bit(byte, 7) == 1 {
                self.noise.restart(false);
            }
            self.noise.set_length_enabled(bit(byte, 6) == 1, &self.frame_sequencer);
        }
    }
}

} // verus!
