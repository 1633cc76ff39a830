//! The interrupt controller: enable and request bitmasks for the four
//! interrupt sources, fixed-priority resolution and edge clearing. A source
//! is pending only when its bit is set in both masks; priority never depends
//! on request order.

use vstd::prelude::*;

verus! {

/// The interrupt enable register lives at the top of the address space.
pub const IE_ADDR: u16 = 0xFFFF;

/// The interrupt request register.
pub const IF_ADDR: u16 = 0xFF0F;

#[derive(Debug, Clone, Copy, PartialEq, Eq, Structural)]
pub enum Interrupt {
    VBlank,
    Stat,
    Timer,
    Serial,
}

impl Interrupt {
    /// The handler address the CPU jumps to for this source.
    pub open spec fn spec_addr(self) -> u16 {
        match self {
            Interrupt::VBlank => 0x40,
            Interrupt::Stat => 0x48,
            Interrupt::Timer => 0x50,
            Interrupt::Serial => 0x58,
        }
    }

    /// The bit this source occupies in both masks.
    pub open spec fn spec_flag(self) -> u8 {
        match self {
            Interrupt::VBlank => 1,
            Interrupt::Stat => 2,
            Interrupt::Timer => 4,
            Interrupt::Serial => 8,
        }
    }

    pub fn addr(self) -> (r: u16)
        ensures
            r == self.spec_addr(),
    {
        match self {
            Interrupt::VBlank => 0x40,
            Interrupt::Stat => 0x48,
            Interrupt::Timer => 0x50,
            Interrupt::Serial => 0x58,
        }
    }

    pub fn flag(self) -> (r: u8)
        ensures
            r == self.spec_flag(),
    {
        match self {
            Interrupt::VBlank => 1,
            Interrupt::Stat => 2,
            Interrupt::Timer => 4,
            Interrupt::Serial => 8,
        }
    }
}

pub struct InterruptController {
    pub ie_reg: u8,
    pub if_reg: u8,
}

impl InterruptController {
    /// A source's bit is set in the request mask.
    pub open spec fn requested(self, i: Interrupt) -> bool {
        self.if_reg & i.spec_flag() == i.spec_flag()
    }

    /// A source is pending when the same bit is set in the enable mask and
    /// in the request mask.
    pub open spec fn pending(self, i: Interrupt) -> bool {
        self.ie_reg & i.spec_flag() == i.spec_flag() && self.if_reg & i.spec_flag()
            == i.spec_flag()
    }

    /// The highest-priority pending source: frame-complete before
    /// display-status before timer-overflow before serial-complete.
    pub open spec fn highest_pending(self) -> Option<Interrupt> {
        if self.pending(Interrupt::VBlank) {
            Some(Interrupt::VBlank)
        } else if self.pending(Interrupt::Stat) {
            Some(Interrupt::Stat)
        } else if self.pending(Interrupt::Timer) {
            Some(Interrupt::Timer)
        } else if self.pending(Interrupt::Serial) {
            Some(Interrupt::Serial)
        } else {
            None
        }
    }

    pub fn new() -> (r: InterruptController)
        ensures
            r.ie_reg == 0 && r.if_reg == 0,
    {
        InterruptController { ie_reg: 0, if_reg: 0 }
    }

    /// The address ranges this controller answers for: the two mask
    /// registers.
    pub fn mapped_areas() -> (r: Vec<crate::memory::MappedArea>)
        ensures
            r@.len() == 2,
            forall|k: int| 0 <= k < r@.len() ==> (#[trigger] r@[k]).wf(),
            r@[0].0 == IE_ADDR && r@[0].1 == 1,
            r@[1].0 == IF_ADDR && r@[1].1 == 1,
    {
        let mut v: Vec<crate::memory::MappedArea> = Vec::new();
        v.push(crate::memory::MappedArea(IE_ADDR, 1));
        v.push(crate::memory::MappedArea(IF_ADDR, 1));
        v
    }

    /// Resolve the highest-priority source that is both enabled and
    /// requested, returning its handler address; with `clear` the request
    /// bit of the resolved source is dropped, and nothing else changes.
    pub fn handle(&mut self, clear: bool) -> (r: Option<u16>)
        ensures
            r == (match old(self).highest_pending() {
                Some(i) => Some(i.spec_addr()),
                None => None::<u16>,
            }),
            final(self).ie_reg == old(self).ie_reg,
            final(self).if_reg == (match old(self).highest_pending() {
                Some(i) => if clear {
                    old(self).if_reg ^ i.spec_flag()
                } else {
                    old(self).if_reg
                },
                None => old(self).if_reg,
            }),
    {
        if self.enabled_and_requested(Interrupt::VBlank) {
            Some(self.fire(Interrupt::VBlank, clear))
        } else if self.enabled_and_requested(Interrupt::Stat) {
            Some(self.fire(Interrupt::Stat, clear))
        } else if self.enabled_and_requested(Interrupt::Timer) {
            Some(self.fire(Interrupt::Timer, clear))
        } else if self.enabled_and_requested(Interrupt::Serial) {
            Some(self.fire(Interrupt::Serial, clear))
        } else {
            None
        }
    }

    fn fire(&mut self, interrupt: Interrupt, clear: bool) -> (r: u16)
        ensures
            r == interrupt.spec_addr(),
            final(self).ie_reg == old(self).ie_reg,
            final(self).if_reg == (if clear {
                old(self).if_reg ^ interrupt.spec_flag()
            } else {
                old(self).if_reg
            }),
    {
        let flag = interrupt.flag();
        if clear {
            self.if_reg = self.if_reg ^ flag;
        }
        interrupt.addr()
    }

    fn enabled_and_requested(&self, interrupt: Interrupt) -> (r: bool)
        ensures
            r == self.pending(interrupt),
    {
        let flag = interrupt.flag();
        self.ie_reg & flag == flag && self.if_reg & flag == flag
    }

    /// Mark a source as requested by setting its bit in the request mask.
    pub fn request(&mut self, interrupt: Interrupt)
        ensures
            final(self).if_reg == old(self).if_reg | interrupt.spec_flag(),
            final(self).ie_reg == old(self).ie_reg,
    {
        self.if_reg = self.if_reg | interrupt.flag();
    }

    /// Reads of the two mask registers; other addresses are never routed
    /// here by the boot-time memory map.
    pub open spec fn read8(self, addr: u16) -> u8 {
        if addr == IE_ADDR {
            self.ie_reg
        } else if addr == IF_ADDR {
            self.if_reg
        } else {
            0xFF
        }
    }

    /// Writes to the two mask registers; writes routed anywhere else are
    /// absorbed.
    pub open spec fn write8(self, addr: u16, byte: u8) -> InterruptController {
        if addr == IE_ADDR {
            InterruptController { ie_reg: byte, ..self }
        } else if addr == IF_ADDR {
            InterruptController { if_reg: byte, ..self }
        } else {
            self
        }
    }

    pub fn get8(&self, addr: u16) -> (r: u8)
        ensures
            r == self.read8(addr),
    {
        if addr == IE_ADDR {
            self.ie_reg
        } else if addr == IF_ADDR {
            self.if_reg
        } else {
            0xFF
        }
    }

    pub fn set8(&mut self, addr: u16, byte: u8)
        ensures
            *final(self) == old(self).write8(addr, byte),
    {
        if addr == IE_ADDR {
            self.ie_reg = byte;
        } else if addr == IF_ADDR {
            self.if_reg = byte;
        }
    }
}

/// The request-mask bit of an optionally raised source; nothing raised
/// contributes no bit.
pub open spec fn spec_opt_flag(raised: Option<Interrupt>) -> u8 {
    match raised {
        Some(i) => i.spec_flag(),
        None => 0,
    }
}

/// The request mask after or-ing in each raised source, first to last.
pub open spec fn spec_or_flags(base: u8, raised: Seq<Interrupt>) -> u8
    decreases raised.len(),
{
    if raised.len() == 0 {
        base
    } else {
        spec_or_flags(base, raised.drop_last()) | raised.last().spec_flag()
    }
}

/// Setting a request bit sets that bit and disturbs no other: after
/// or-ing in `f`, the `f` bit reads back set, and any bit pattern `g`
/// already present is still present.
pub proof fn lemma_request_sets_bit(r: u8, f: u8, g: u8)
    ensures
        (r | f) & f == f,
        r & g == g ==> (r | f) & g == g,
{
    assert((r | f) & f == f) by (bit_vector);
    assert(r & g == g ==> (r | f) & g == g) by (bit_vector);
}

/// Requesting a source that is already requested is a no-op: the request
/// mask after the second call equals the mask after the first.
pub proof fn lemma_request_idempotent(ic: InterruptController, i: Interrupt)
    ensures
        (ic.if_reg | i.spec_flag()) | i.spec_flag() == ic.if_reg | i.spec_flag(),
{
    let f = i.spec_flag();
    let r = ic.if_reg;
    assert((r | f) | f == r | f) by (bit_vector);
}

} // verus!
