//! The frame sequencer: divides the machine clock into the 512 Hz step
//! pattern that paces length counters and the frequency sweep.

use vstd::prelude::*;

use crate::timer::CLOCK_FREQ;

verus! {

pub struct FrameSequencer {
    pub ticks_left: u32,
    pub step: u32,
    pub clock: Option<u32>,
}

impl FrameSequencer {
    pub open spec fn wf(self) -> bool {
        self.step < 8
    }

    pub fn new() -> (r: FrameSequencer)
        ensures
            r.wf(),
            r.ticks_left == 0,
            r.step == 0,
            r.clock is None,
    {
        FrameSequencer { ticks_left: 0, step: 0, clock: None }
    }

    /// One machine cycle: every 2048 cycles the sequencer emits its step
    /// number for that cycle; in between it emits nothing.
    pub fn tick(&mut self)
        requires
            old(self).wf(),
        ensures
            final(self).wf(),
            old(self).ticks_left == 0 ==> final(self).clock == Some(old(self).step)
                && final(self).step == (old(self).step + 1) % 8,
            old(self).ticks_left != 0 ==> final(self).clock is None && final(self).step == old(
                self).step && final(self).ticks_left == old(self).ticks_left - 1,
    {
        if self.ticks_left == 0 {
            self.ticks_left = CLOCK_FREQ / 512;
            self.clock = Some(self.step);
            self.step = (self.step + 1) % 8;
        } else {
            self.clock = None;
        }
        self.ticks_left = self.ticks_left - 1;
    }

    /// Whether this cycle is a length-counter step (the even steps).
    pub fn is_length_counter(&self) -> (r: bool)
        ensures
            r == (self.clock is Some && self.clock.unwrap() % 2 == 0),
    {
        match self.clock {
            Some(v) => v % 2 == 0,
            None => false,
        }
    }

    /// Whether this cycle is a sweep step (steps two and six).
    pub fn is_sweep(&self) -> (r: bool)
        ensures
            r == (self.clock is Some && (self.clock.unwrap() == 2 || self.clock.unwrap() == 6)),
    {
        match self.clock {
            Some(v) => v == 2 || v == 6,
            None => false,
        }
    }

    /// Whether the next emitted step will be a length-counter step.
    pub fn next_is_length_counter(&self) -> (r: bool)
        ensures
            r == (self.step % 2 == 0),
    {
        self.step % 2 == 0
    }
}

} // verus!
