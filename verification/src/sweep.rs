//! The frequency sweep of the first tone channel: periodically recomputes
//! the frequency by a shifted delta, disabling the channel when the result
//! overflows the eleven-bit range.

use vstd::prelude::*;

use crate::bits::{bit, spec_bit};
use crate::envelope::Direction;

verus! {

pub enum SweepAction {
    Disable,
    Nop,
    Update(u16),
}

pub struct Sweep {
    pub enabled: bool,
    pub sweep_period: u8,
    pub direction: Direction,
    pub shift: u8,
    pub frequency: u16,
    pub periods_left: u8,
}

impl Sweep {
    pub open spec fn wf(self) -> bool {
        self.sweep_period <= 7 && self.shift <= 7 && self.frequency <= 2047
    }

    pub fn new() -> (r: Sweep)
        ensures
            r.wf(),
            !r.enabled,
    {
        Sweep {
            enabled: false,
            sweep_period: 0,
            direction: Direction::Increase,
            shift: 0,
            frequency: 0,
            periods_left: 0,
        }
    }

    /// Decode the sweep register: period in bits 4-6, direction in bit 3,
    /// shift in the low three bits.
    pub fn update(&mut self, byte: u8)
        requires
            old(self).wf(),
        ensures
            final(self).wf(),
            final(self).sweep_period == (byte >> 4) & 0x7,
            final(self).shift == byte & 0x7,
            final(self).frequency == old(self).frequency,
            final(self).enabled == old(self).enabled,
    {
        proof {
            assert((byte >> 4) & 0x7 <= 7 && byte & 0x7 <= 7) by (bit_vector);
        }
        self.sweep_period = (byte >> 4) & 0x7;
        self.direction = if bit(byte, 3) == 0 {
            Direction::Increase
        } else {
            Direction::Decrease
        };
        self.shift = byte & 0x7;
    }

    /// One frame-sequencer sweep step: when armed and due, recompute the
    /// frequency; an overflow on either the applied or the following value
    /// silences the channel.
    pub fn tick(&mut self) -> (r: SweepAction)
        requires
            old(self).wf(),
        ensures
            final(self).wf(),
            r is Update ==> r->Update_0 <= 2047,
    {
        if self.periods_left == 0 {
            self.periods_left = self.sweep_period;
        }
        if !self.enabled || self.sweep_period == 0 {
            return SweepAction::Nop;
        }
        self.periods_left = self.periods_left - 1;
        if self.periods_left == 0 {
            self.periods_left = self.sweep_period;
            match self.new_frequency() {
                None => SweepAction::Disable,
                Some(f) => {
                    if self.shift != 0 {
                        self.frequency = f;
                    }
                    match self.new_frequency() {
                        None => SweepAction::Disable,
                        Some(_) => SweepAction::Update(self.frequency),
                    }
                }
            }
        } else {
            SweepAction::Nop
        }
    }

    /// A channel trigger latches the channel frequency and primes the
    /// sweep; with a nonzero shift the first recomputation happens at
    /// once.
    pub fn trigger(&mut self, frequency: u16) -> (r: SweepAction)
        requires
            old(self).wf(),
            frequency <= 2047,
        ensures
            final(self).wf(),
            final(self).frequency == frequency,
            r is Update ==> r->Update_0 <= 2047,
    {
        self.frequency = frequency;
        self.periods_left = self.sweep_period;
        self.enabled = self.sweep_period != 0 || self.shift != 0;
        if self.shift != 0 {
            match self.new_frequency() {
                None => SweepAction::Disable,
                Some(_) => SweepAction::Update(self.frequency),
            }
        } else {
            SweepAction::Nop
        }
    }

    /// The next frequency the sweep would apply, or nothing when it leaves
    /// the eleven-bit range.
    fn new_frequency(&self) -> (r: Option<u16>)
        requires
            self.wf(),
        ensures
            r is Some ==> r.unwrap() <= 2047,
    {
        let delta = self.frequency >> self.shift;
        proof {
            let f = self.frequency;
            let s = self.shift;
            assert(f >> s <= f) by (bit_vector);
        }
        match self.direction {
            Direction::Increase => {
                if self.frequency + delta > 2047 {
                    None
                } else {
                    Some(self.frequency + delta)
                }
            }
            Direction::Decrease => Some(self.frequency - delta),
        }
    }
}

} // verus!
