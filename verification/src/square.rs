//! The two tone channels: an eight-step duty waveform paced by an
//! eleven-bit frequency, shaped by the length counter, volume envelope and
//! (on the first channel) the frequency sweep.

use vstd::prelude::*;

use crate::envelope::VolumeEnvelope;
use crate::frame_sequencer::FrameSequencer;
use crate::length_counter::{LengthCounter, LengthCounterAction};
use crate::sweep::{Sweep, SweepAction};

verus! {

/// The eight-step duty waveform generator.
pub struct WaveGen {
    pub frequency: u16,
    pub timer: u16,
    pub duty_index: u8,
    pub cycle_offset: u8,
}

/// Sample of duty cycle `duty` at step `offset`: the four duty patterns of
/// the tone channels.
pub open spec fn spec_duty_sample(duty: u8, offset: u8) -> u8 {
    if duty % 4 == 0 {
        if offset % 8 == 7 { 1 as u8 } else { 0 }
    } else if duty % 4 == 1 {
        if offset % 8 == 0 { 1 as u8 } else { 0 }
    } else if duty % 4 == 2 {
        if offset % 8 == 0 || offset % 8 == 5 || offset % 8 == 6 || offset % 8 == 7 { 1 as u8 } else { 0 }
    } else {
        if 1 <= offset % 8 <= 6 { 1 as u8 } else { 0 }
    }
}

impl WaveGen {
    pub open spec fn wf(self) -> bool {
        self.frequency <= 0x7FF && self.duty_index <= 3 && self.cycle_offset <= 7
    }

    pub fn new() -> (r: WaveGen)
        ensures
            r.wf(),
            r.frequency == 0,
            r.timer == 0,
            r.duty_index == 0,
            r.cycle_offset == 0,
    {
        WaveGen { frequency: 0, timer: 0, duty_index: 0, cycle_offset: 0 }
    }

    pub fn set_freq_lower(&mut self, data: u8)
        requires
            old(self).wf(),
        ensures
            final(self).wf(),
            final(self).frequency == (old(self).frequency & 0x700) | (data as u16),
            final(self).duty_index == old(self).duty_index,
    {
        proof {
            let f = old(self).frequency;
            assert(f <= 0x7FF ==> ((f & 0x700) | (data as u16)) <= 0x7FF) by (bit_vector);
        }
        self.frequency = (self.frequency & 0x700) | (data as u16);
    }

    pub fn set_freq_upper(&mut self, data: u8)
        requires
            old(self).wf(),
            data <= 7,
        ensures
            final(self).wf(),
            final(self).frequency == (old(self).frequency & 0xFF) | ((data as u16) << 8),
            final(self).duty_index == old(self).duty_index,
    {
        proof {
            let f = old(self).frequency;
            let d = data;
            assert(f <= 0x7FF && d <= 7 ==> ((f & 0xFF) | ((d as u16) << 8)) <= 0x7FF)
                by (bit_vector);
        }
        self.frequency = (self.frequency & 0xFF) | ((data as u16) << 8);
    }

    pub fn set_duty(&mut self, duty_index: u8)
        requires
            old(self).wf(),
            duty_index <= 3,
        ensures
            final(self).wf(),
            final(self).duty_index == duty_index,
            final(self).frequency == old(self).frequency,
    {
        self.duty_index = duty_index;
    }

    /// One machine cycle: when the frequency timer runs out, step to the
    /// next duty position and reload it.
    pub fn tick(&mut self)
        requires
            old(self).wf(),
        ensures
            final(self).wf(),
            final(self).frequency == old(self).frequency,
            final(self).duty_index == old(self).duty_index,
    {
        if self.timer == 0 {
            self.cycle_offset = (self.cycle_offset + 1) % 8;
            self.timer = 2048 - self.frequency;
        }
        self.timer = self.timer - 1;
    }

    /// The current one-bit duty sample.
    pub fn sample(&self) -> (r: u8)
        requires
            self.wf(),
        ensures
            r == spec_duty_sample(self.duty_index, self.cycle_offset),
            r <= 1,
    {
        let on: bool = if self.duty_index == 0 {
            self.cycle_offset == 7
        } else if self.duty_index == 1 {
            self.cycle_offset == 0
        } else if self.duty_index == 2 {
            self.cycle_offset == 0 || self.cycle_offset >= 5
        } else {
            1 <= self.cycle_offset && self.cycle_offset <= 6
        };
        if on {
            1
        } else {
            0
        }
    }
}

/// A tone channel.
pub struct SquareWave {
    pub dac_on: bool,
    pub enabled: bool,
    pub sweep: Sweep,
    pub square_wave: WaveGen,
    pub volume_envelope: VolumeEnvelope,
    pub length_counter: LengthCounter,
}

impl SquareWave {
    pub open spec fn wf(self) -> bool {
        &&& self.sweep.wf()
        &&& self.square_wave.wf()
        &&& self.volume_envelope.wf()
        &&& self.length_counter.wf()
        &&& self.length_counter.max == 64
    }

    pub fn new() -> (r: SquareWave)
        ensures
            r.wf(),
            !r.enabled,
    {
        let mut sweep = Sweep::new();
        sweep.update(0x80);
        SquareWave {
            dac_on: false,
            enabled: false,
            sweep,
            square_wave: WaveGen::new(),
            volume_envelope: VolumeEnvelope::new_from_byte(0xF3),
            length_counter: LengthCounter::new(64),
        }
    }

    /// Whether the channel is audible: powered and not silenced.
    pub fn is_on(&self) -> (r: bool)
        ensures
            r == (self.dac_on && self.enabled),
    {
        self.dac_on && self.enabled
    }

    /// One machine cycle: run the length counter on its steps, then (while
    /// audible) the sweep, the waveform and the envelope.
    pub fn tick(&mut self, fs: &FrameSequencer)
        requires
            old(self).wf(),
        ensures
            final(self).wf(),
    {
        if fs.is_length_counter() {
            match self.length_counter.tick() {
                LengthCounterAction::Nop => {}
                LengthCounterAction::Disable => {
                    self.enabled = false;
                    return ;
                }
            }
        }
        if !self.dac_on || !self.enabled {
            return ;
        }
        if fs.is_sweep() {
            match self.sweep.tick() {
                SweepAction::Nop => {}
                SweepAction::Disable => {
                    self.enabled = false;
                    return ;
                }
                SweepAction::Update(frequency) => {
                    let upper = ((frequency / 256) as u8) & 0x7;
                    proof {
                        let u = ((frequency / 256) as u8);
                        assert(u & 0x7 <= 7) by (bit_vector);
                    }
                    self.square_wave.set_freq_lower(#[verifier::truncate] (frequency as u8));
                    self.square_wave.set_freq_upper(upper);
                }
            }
        }
        self.square_wave.tick();
        self.volume_envelope.tick();
    }

    /// The channel's current sample: the duty bit scaled by the envelope,
    /// or silence.
    pub fn sample(&self) -> (r: u8)
        requires
            self.wf(),
        ensures
            r <= 15,
            !self.enabled ==> r == 0,
    {
        if self.enabled {
            self.volume_envelope.apply(self.square_wave.sample())
        } else {
            0
        }
    }

    pub fn update_sweep(&mut self, byte: u8)
        requires
            old(self).wf(),
        ensures
            final(self).wf(),
    {
        self.sweep.update(byte);
    }

    pub fn set_length(&mut self, length: u8)
        requires
            old(self).wf(),
            length < 64,
        ensures
            final(self).wf(),
    {
        self.length_counter.set_length(length);
    }

    pub fn set_length_enabled(&mut self, enabled: bool, fs: &FrameSequencer)
        requires
            old(self).wf(),
        ensures
            final(self).wf(),
    {
        match self.length_counter.set_enabled(enabled, fs.next_is_length_counter()) {
            LengthCounterAction::Nop => {}
            LengthCounterAction::Disable => {
                self.enabled = false;
            }
        }
    }

    pub fn set_duty(&mut self, duty_index: u8)
        requires
            old(self).wf(),
            duty_index <= 3,
        ensures
            final(self).wf(),
            final(self).square_wave.duty_index == duty_index,
    {
        self.square_wave.set_duty(duty_index);
    }

    pub fn set_freq_lower(&mut self, data: u8)
        requires
            old(self).wf(),
        ensures
            final(self).wf(),
    {
        self.square_wave.set_freq_lower(data);
    }

    pub fn set_freq_upper(&mut self, data: u8)
        requires
            old(self).wf(),
            data <= 7,
        ensures
            final(self).wf(),
    {
        self.square_wave.set_freq_upper(data);
    }

    /// Install a new envelope; a zero-volume envelope powers the output
    /// stage down and silences the channel.
    pub fn set_volume_envelope(&mut self, volume_envelope: VolumeEnvelope)
        requires
            old(self).wf(),
            volume_envelope.wf(),
        ensures
            final(self).wf(),
            final(self).dac_on == (volume_envelope.volume > 0),
            !final(self).dac_on ==> !final(self).enabled,
    {
        self.volume_envelope = volume_envelope;
        self.dac_on = self.volume_envelope.is_on();
        if !self.dac_on {
            self.enabled = false;
        }
    }

    /// A trigger write: wake the channel if its output stage is powered,
    /// reload an expired length counter, and prime the sweep from the
    /// current frequency.
    pub fn trigger(&mut self, will_enable: bool)
        requires
            old(self).wf(),
        ensures
            final(self).wf(),
    {
        if self.dac_on {
            self.enabled = true;
        }
        self.length_counter.trigger(will_enable);
        match self.sweep.trigger(self.square_wave.frequency) {
            SweepAction::Disable => {
                self.enabled = false;
            }
            _ => {}
        }
    }
}

} // verus!
