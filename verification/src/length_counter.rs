//! The length counter shared by all four channels: an armed countdown that
//! silences its channel when it reaches zero.

use vstd::prelude::*;

verus! {

pub enum LengthCounterAction {
    Disable,
    Nop,
}

pub struct LengthCounter {
    pub enabled: bool,
    pub length: u16,
    pub max: u16,
}

impl LengthCounter {
    pub open spec fn wf(self) -> bool {
        self.length <= self.max && 1 <= self.max
    }

    pub fn new(max: u16) -> (r: LengthCounter)
        requires
            1 <= max,
        ensures
            r.wf(),
            r.max == max,
            r.length == 0,
            !r.enabled,
    {
        LengthCounter { enabled: false, length: 0, max }
    }

    /// One frame-sequencer length step: count down when armed; reaching
    /// zero tells the channel to go silent.
    pub fn tick(&mut self) -> (r: LengthCounterAction)
        requires
            old(self).wf(),
        ensures
            final(self).wf(),
            final(self).max == old(self).max,
            !old(self).enabled || old(self).length == 0 ==> *final(self) == *old(self) && r
                is Nop,
            old(self).enabled && old(self).length > 0 ==> final(self).length == old(
                self).length - 1 && (r is Disable <==> final(self).length == 0),
    {
        if !self.enabled || self.length == 0 {
            return LengthCounterAction::Nop;
        }
        self.length = self.length - 1;
        if self.length == 0 {
            return LengthCounterAction::Disable;
        }
        LengthCounterAction::Nop
    }

    /// Arm or disarm the countdown; arming just before a length step that
    /// will not run consumes one count at once, possibly silencing the
    /// channel immediately.
    pub fn set_enabled(&mut self, enabled: bool, next_is_length_counter: bool) -> (r:
        LengthCounterAction)
        requires
            old(self).wf(),
        ensures
            final(self).wf(),
            final(self).max == old(self).max,
    {
        if !self.enabled && enabled && self.length > 0 && !next_is_length_counter {
            self.length = self.length - 1;
            self.enabled = enabled;
            if self.length == 0 {
                self.enabled = false;
                return LengthCounterAction::Disable;
            }
        }
        self.enabled = enabled;
        LengthCounterAction::Nop
    }

    /// Program the countdown: the register holds the complement of the
    /// length.
    pub fn set_length(&mut self, length: u8)
        requires
            old(self).wf(),
            length < old(self).max,
        ensures
            final(self).wf(),
            final(self).length == old(self).max - length,
            final(self).max == old(self).max,
            final(self).enabled == old(self).enabled,
    {
        self.length = self.max - length as u16;
    }

    /// A channel trigger reloads an expired countdown to its maximum; when
    /// the trigger also arms it outside a length step, one count is
    /// consumed at once.
    pub fn trigger(&mut self, will_enable: bool)
        requires
            old(self).wf(),
        ensures
            final(self).wf(),
            final(self).max == old(self).max,
            old(self).length > 0 ==> *final(self) == *old(self),
    {
        if self.length == 0 {
            self.length = self.max;
            if will_enable && !self.enabled {
                self.enabled = true;
                self.length = self.length - 1;
            }
        }
    }
}

} // verus!
