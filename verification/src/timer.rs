//! The timer peripheral: a free-running divider and a programmable counter,
//! each advanced by the cycle count the CPU reports, with an interrupt on
//! counter overflow.

use vstd::prelude::*;

verus! {

/// The machine clock frequency in cycles per second.
pub const CLOCK_FREQ: u32 = 1048576;

/// Address of the divider register.
pub const DIV_ADDR: u16 = 0xFF04;

/// Address of the counter register.
pub const TIMA_ADDR: u16 = 0xFF05;

/// Address of the counter reload value.
pub const TMA_ADDR: u16 = 0xFF06;

/// Address of the timer control register.
pub const TAC_ADDR: u16 = 0xFF07;

/// One counting cell: advances by one every `clocks_per_tick` machine
/// cycles, wrapping to `default_value` on overflow.
pub struct Timer {
    pub clocks_per_tick: u32,
    pub clocks_left: u32,
    pub value: u8,
    pub default_value: u8,
}

impl Timer {
    pub open spec fn wf(self) -> bool {
        1 <= self.clocks_per_tick && 1 <= self.clocks_left
    }

    /// The cell after `to_tick` machine cycles, and whether it overflowed
    /// on the way.
    pub open spec fn spec_ticked(self, to_tick: int) -> (Timer, bool)
        decreases to_tick,
    {
        if to_tick <= 0 || self.clocks_left <= 0 {
            (self, false)
        } else if self.clocks_left <= to_tick {
            let stepped = Timer {
                clocks_left: self.clocks_per_tick,
                value: if self.value == 0xFF {
                    self.default_value
                } else {
                    (self.value + 1) as u8
                },
                ..self
            };
            let rest = stepped.spec_ticked(to_tick - self.clocks_left);
            (rest.0, rest.1 || self.value == 0xFF)
        } else {
            (Timer { clocks_left: (self.clocks_left - to_tick) as u32, ..self }, false)
        }
    }

    pub fn new(freq: u32, default_value: u8) -> (r: Timer)
        requires
            1 <= freq <= CLOCK_FREQ,
        ensures
            r == (Timer {
                clocks_per_tick: (CLOCK_FREQ / freq) as u32,
                clocks_left: (CLOCK_FREQ / freq) as u32,
                value: 0,
                default_value,
            }),
            r.wf(),
    {
        let clocks_per_tick = CLOCK_FREQ / freq;
        proof {
            vstd::arithmetic::div_mod::lemma_div_non_zero(CLOCK_FREQ as int, freq as int);
        }
        Timer { clocks_per_tick, clocks_left: clocks_per_tick, value: 0, default_value }
    }

    /// Advance by `clocks` machine cycles; the result says whether the
    /// value overflowed past 0xFF at least once.
    pub fn tick(&mut self, clocks: u32) -> (overflow: bool)
        requires
            old(self).wf(),
        ensures
            final(self).wf(),
            *final(self) == old(self).spec_ticked(clocks as int).0,
            overflow == old(self).spec_ticked(clocks as int).1,
        decreases clocks,
    {
        if clocks == 0 {
            return false;
        }
        if self.clocks_left <= clocks {
            let rest = clocks - self.clocks_left;
            let overflowed = self.value == 0xFF;
            self.value = if self.value == 0xFF {
                self.default_value
            } else {
                self.value + 1
            };
            self.clocks_left = self.clocks_per_tick;
            let later = self.tick(rest);
            later || overflowed
        } else {
            self.clocks_left = self.clocks_left - clocks;
            false
        }
    }

    pub fn set(&mut self, value: u8)
        ensures
            *final(self) == (Timer { value, ..*old(self) }),
    {
        self.value = value;
    }
}

/// The counting frequency selected by the low two bits of the control
/// register.
pub open spec fn spec_tac_freq(sel: u8) -> u32 {
    if sel % 4 == 0 {
        4096
    } else if sel % 4 == 1 {
        262144
    } else if sel % 4 == 2 {
        65536
    } else {
        16384
    }
}

fn tac_freq(sel: u8) -> (r: u32)
    ensures
        r == spec_tac_freq(sel),
        1 <= r <= CLOCK_FREQ,
{
    match sel % 4 {
        0 => 4096,
        1 => 262144,
        2 => 65536,
        _ => 16384,
    }
}

pub struct TimerController {
    pub tac: u8,
    pub div_ticker: Timer,
    pub tima_ticker: Timer,
    pub tima_running: bool,
}

impl TimerController {
    pub open spec fn wf(self) -> bool {
        self.div_ticker.wf() && self.tima_ticker.wf()
    }

    pub fn new() -> (r: TimerController)
        ensures
            r.wf(),
            r.tac == 0,
            !r.tima_running,
            r.div_ticker.clocks_per_tick == 64,
            r.div_ticker.clocks_left == 64,
            r.div_ticker.value == 0,
            r.div_ticker.default_value == 0,
            r.tima_ticker.value == 0,
            r.tima_ticker.default_value == 0,
    {
        TimerController {
            tac: 0,
            div_ticker: Timer::new(16384, 0),
            tima_ticker: Timer::new(4096, 0),
            tima_running: false,
        }
    }

    /// The address ranges this controller answers for: the four timer
    /// registers.
    pub fn mapped_areas() -> (r: Vec<crate::memory::MappedArea>)
        ensures
            r@.len() == 1,
            forall|k: int| 0 <= k < r@.len() ==> (#[trigger] r@[k]).wf(),
            r@[0].0 == DIV_ADDR && r@[0].1 == 4,
    {
        let mut v: Vec<crate::memory::MappedArea> = Vec::new();
        v.push(crate::memory::MappedArea(DIV_ADDR, 4));
        v
    }

    /// How one tick relates the controller before to the controller
    /// after, with the interrupt it raised: both cells advance by exactly
    /// `clocks` cycles, the control state is untouched, and the
    /// timer-overflow interrupt is raised exactly when the running counter
    /// overflowed.
    pub open spec fn tick_rel(self, post: TimerController, clocks: u32, raised: Option<
        crate::interrupts::Interrupt>) -> bool {
        &&& post.div_ticker == self.div_ticker.spec_ticked(clocks as int).0
        &&& post.tac == self.tac
        &&& post.tima_running == self.tima_running
        &&& (self.tima_running ==> {
            &&& post.tima_ticker == self.tima_ticker.spec_ticked(clocks as int).0
            &&& raised == (if self.tima_ticker.spec_ticked(clocks as int).1 {
                Some(crate::interrupts::Interrupt::Timer)
            } else {
                None::<crate::interrupts::Interrupt>
            })
        })
        &&& (!self.tima_running ==> {
            &&& post.tima_ticker == self.tima_ticker
            &&& raised is None
        })
    }

    /// Advance both cells; a counter overflow raises the timer-overflow
    /// interrupt.
    pub fn tick(&mut self, clocks: u32) -> (r: Option<crate::interrupts::Interrupt>)
        requires
            old(self).wf(),
        ensures
            final(self).wf(),
            old(self).tick_rel(*final(self), clocks, r),
    {
        self.div_ticker.tick(clocks);
        if self.tima_running {
            if self.tima_ticker.tick(clocks) {
                return Some(crate::interrupts::Interrupt::Timer);
            }
        }
        None
    }

    /// Reads of the four timer registers; other addresses are never routed
    /// here by the boot-time memory map.
    pub open spec fn read8(self, addr: u16) -> u8 {
        if addr == DIV_ADDR {
            self.div_ticker.value
        } else if addr == TIMA_ADDR {
            self.tima_ticker.value
        } else if addr == TMA_ADDR {
            self.tima_ticker.default_value
        } else if addr == TAC_ADDR {
            self.tac
        } else {
            0xFF
        }
    }

    /// Writes to the four timer registers: a divider write clears it, a
    /// control write reselects the counting frequency and restarts the
    /// counter from zero.
    pub open spec fn write8(self, addr: u16, byte: u8) -> TimerController {
        if addr == DIV_ADDR {
            TimerController { div_ticker: Timer { value: 0, ..self.div_ticker }, ..self }
        } else if addr == TIMA_ADDR {
            TimerController { tima_ticker: Timer { value: byte, ..self.tima_ticker }, ..self }
        } else if addr == TMA_ADDR {
            TimerController {
                tima_ticker: Timer { default_value: byte, ..self.tima_ticker },
                ..self
            }
        } else if addr == TAC_ADDR {
            TimerController {
                tac: byte,
                tima_running: (byte >> 2) & 1 == 1,
                tima_ticker: Timer {
                    clocks_per_tick: (CLOCK_FREQ / spec_tac_freq(byte % 4)) as u32,
                    clocks_left: (CLOCK_FREQ / spec_tac_freq(byte % 4)) as u32,
                    value: 0,
                    default_value: self.tima_ticker.default_value,
                },
                ..self
            }
        } else {
            self
        }
    }

    pub fn get8(&self, addr: u16) -> (r: u8)
        ensures
            r == self.read8(addr),
    {
        if addr == DIV_ADDR {
            self.div_ticker.value
        } else if addr == TIMA_ADDR {
            self.tima_ticker.value
        } else if addr == TMA_ADDR {
            self.tima_ticker.default_value
        } else if addr == TAC_ADDR {
            self.tac
        } else {
            0xFF
        }
    }

    pub fn set8(&mut self, addr: u16, byte: u8)
        requires
            old(self).wf(),
        ensures
            final(self).wf(),
            *final(self) == old(self).write8(addr, byte),
    {
        if addr == DIV_ADDR {
            self.div_ticker.set(0);
        } else if addr == TIMA_ADDR {
            self.tima_ticker.set(byte);
        } else if addr == TMA_ADDR {
            self.tima_ticker.default_value = byte;
        } else if addr == TAC_ADDR {
            self.tac = byte;
            self.tima_running = crate::bits::bit(byte, 2) == 1;
            let freq = tac_freq(byte % 4);
            self.tima_ticker = Timer::new(freq, self.tima_ticker.default_value);
        }
    }
}

} // verus!
