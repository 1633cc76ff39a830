//! The wave channel: a 32-sample four-bit table played at an eleven-bit
//! frequency, shaped by a length counter and a coarse volume shift.

use vstd::prelude::*;

use crate::frame_sequencer::FrameSequencer;
use crate::length_counter::{LengthCounter, LengthCounterAction};

verus! {

/// Playback volume of the wave channel: full, halved, quartered or mute.
#[derive(Debug, Clone, Copy, PartialEq, Eq, Structural)]
pub enum WaveVolume {
    Mute,
    Quarter,
    Half,
    Full,
}

/// The table-driven waveform generator.
pub struct CustomWave {
    pub wave_table: Vec<u8>,
    pub frequency: u16,
    pub timer: u16,
    pub cycle_offset: u8,
}

impl CustomWave {
    pub open spec fn wf(self) -> bool {
        &&& self.wave_table@.len() == 32
        &&& self.frequency <= 0x7FF
        &&& self.cycle_offset <= 31
        &&& forall|i: int| 0 <= i < 32 ==> self.wave_table@[i] <= 15
    }

    pub fn new() -> (r: CustomWave)
        ensures
            r.wf(),
    {
        CustomWave {
            wave_table: crate::devices::filled_vec(32, 0),
            frequency: 0,
            timer: 0,
            cycle_offset: 0,
        }
    }

    pub fn set_freq_lower(&mut self, data: u8)
        requires
            old(self).wf(),
        ensures
            final(self).wf(),
    {
        proof {
            let f = old(self).frequency;
            assert(f <= 0x7FF ==> ((f & 0x700) | (data as u16)) <= 0x7FF) by (bit_vector);
        }
        self.frequency = (self.frequency & 0x700) | (data as u16);
    }

    pub fn set_freq_upper(&mut self, data: u8)
        requires
            old(self).wf(),
            data <= 7,
        ensures
            final(self).wf(),
    {
        proof {
            let f = old(self).frequency;
            let d = data;
            assert(f <= 0x7FF && d <= 7 ==> ((f & 0xFF) | ((d as u16) << 8)) <= 0x7FF)
                by (bit_vector);
        }
        self.frequency = (self.frequency & 0xFF) | ((data as u16) << 8);
    }

    /// Store one register byte as two four-bit table samples, high nibble
    /// first.
    pub fn set_wave(&mut self, offset: u8, data: u8)
        requires
            old(self).wf(),
            offset < 16,
        ensures
            final(self).wf(),
            final(self).wave_table@[2 * offset] == data >> 4,
            final(self).wave_table@[2 * offset + 1] == data & 0xF,
    {
        proof {
            assert(data >> 4 <= 15 && data & 0xF <= 15) by (bit_vector);
        }
        let idx = (offset as usize) * 2;
        self.wave_table.set(idx, data >> 4);
        self.wave_table.set(idx + 1, data & 0xF);
    }

    /// One machine cycle: when the frequency timer runs out, advance to
    /// the next table sample.
    pub fn tick(&mut self)
        requires
            old(self).wf(),
        ensures
            final(self).wf(),
    {
        if self.timer == 0 {
            self.cycle_offset = (self.cycle_offset + 1) % 32;
            self.timer = (2048 - self.frequency) / 2;
        } else {
            self.timer = self.timer - 1;
        }
    }

    /// The current four-bit table sample.
    pub fn sample(&self) -> (r: u8)
        requires
            self.wf(),
        ensures
            r == self.wave_table@[self.cycle_offset as int],
            r <= 15,
    {
        self.wave_table[self.cycle_offset as usize]
    }

    /// A trigger rewinds playback to the first sample.
    pub fn reset(&mut self)
        requires
            old(self).wf(),
        ensures
            final(self).wf(),
            final(self).cycle_offset == 0,
    {
        self.cycle_offset = 0;
        self.timer = (2048 - self.frequency) * 2;
    }
}

/// The wave channel.
pub struct Wave {
    pub dac_on: bool,
    pub enabled: bool,
    pub custom_wave: CustomWave,
    pub volume: WaveVolume,
    pub length_counter: LengthCounter,
    pub frequency: u16,
}

impl Wave {
    pub open spec fn wf(self) -> bool {
        &&& self.custom_wave.wf()
        &&& self.length_counter.wf()
        &&& self.length_counter.max == 256
    }

    pub fn new() -> (r: Wave)
        ensures
            r.wf(),
            !r.enabled,
    {
        Wave {
            dac_on: false,
            enabled: false,
            custom_wave: CustomWave::new(),
            volume: WaveVolume::Mute,
            length_counter: LengthCounter::new(256),
            frequency: 0,
        }
    }

    pub fn is_on(&self) -> (r: bool)
        ensures
            r == (self.dac_on && self.enabled),
    {
        self.dac_on && self.enabled
    }

    /// One machine cycle: run the length counter on its steps, then the
    /// table playback while audible.
    pub fn tick(&mut self, fs: &FrameSequencer)
        requires
            old(self).wf(),
        ensures
            final(self).wf(),
    {
        if fs.is_length_counter() {
            match self.length_counter.tick() {
                LengthCounterAction::Nop => {}
                LengthCounterAction::Disable => {
                    self.enabled = false;
                }
            }
        }
        if !self.dac_on || !self.enabled {
            return ;
        }
        self.custom_wave.tick();
    }

    /// The channel's current sample after the coarse volume shift.
    pub fn sample(&self) -> (r: u8)
        requires
            self.wf(),
        ensures
            r <= 15,
            !self.enabled ==> r == 0,
    {
        if self.enabled {
            let sample = self.custom_wave.sample();
            match self.volume {
                WaveVolume::Mute => 0,
                WaveVolume::Quarter => sample / 4,
                WaveVolume::Half => sample / 2,
                WaveVolume::Full => sample,
            }
        } else {
            0
        }
    }

    /// Power the output stage; powering it down silences the channel.
    pub fn set_dac(&mut self, dac_on: bool)
        requires
            old(self).wf(),
        ensures
            final(self).wf(),
            final(self).dac_on == dac_on,
            !dac_on ==> !final(self).enabled,
    {
        self.dac_on = dac_on;
        if !self.dac_on {
            self.enabled = false;
        }
    }

    /// Select the coarse volume from its two-bit register code.
    pub fn set_volume(&mut self, volume_code: u8)
        requires
            old(self).wf(),
            volume_code <= 3,
        ensures
            final(self).wf(),
            final(self).volume == (if volume_code == 0 {
                WaveVolume::Mute
            } else if volume_code == 1 {
                WaveVolume::Full
            } else if volume_code == 2 {
                WaveVolume::Half
            } else {
                WaveVolume::Quarter
            }),
    {
        self.volume = if volume_code == 0 {
            WaveVolume::Mute
        } else if volume_code == 1 {
            WaveVolume::Full
        } else if volume_code == 2 {
            WaveVolume::Half
        } else {
            WaveVolume::Quarter
        };
    }

    pub fn set_wave(&mut self, offset: u8, data: u8)
        requires
            old(self).wf(),
            offset < 16,
        ensures
            final(self).wf(),
    {
        self.custom_wave.set_wave(offset, data);
    }

    pub fn set_length(&mut self, length: u8)
        requires
            old(self).wf(),
        ensures
            final(self).wf(),
    {
        self.length_counter.set_length(length);
    }

    pub fn set_length_enabled(&mut self, enabled: bool, fs: &FrameSequencer)
        requires
            old(self).wf(),
        ensures
            final(self).wf(),
    {
        match self.length_counter.set_enabled(enabled, fs.next_is_length_counter()) {
            LengthCounterAction::Nop => {}
            LengthCounterAction::Disable => {
                self.enabled = false;
            }
        }
    }

    pub fn set_freq_lower(&mut self, data: u8)
        requires
            old(self).wf(),
        ensures
            final(self).wf(),
    {
        self.custom_wave.set_freq_lower(data);
    }

    pub fn set_freq_upper(&mut self, data: u8)
        requires
            old(self).wf(),
            data <= 7,
        ensures
            final(self).wf(),
    {
        self.custom_wave.set_freq_upper(data);
    }

    /// A trigger write: wake the channel if powered, reload an expired
    /// length counter and rewind playback.
    pub fn trigger(&mut self, will_enable: bool)
        requires
            old(self).wf(),
        ensures
            final(self).wf(),
    {
        if self.dac_on {
            self.enabled = true;
        }
        self.length_counter.trigger(will_enable);
        self.custom_wave.reset();
    }
}

} // verus!
