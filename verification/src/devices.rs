//! Plain memory devices: banked work RAM, read-only memory, a flat device
//! covering the whole address space (useful for exercising the CPU against
//! trivial wiring), and the absorbing device behind intentionally unmapped
//! addresses.

use vstd::prelude::*;

verus! {

/// A vector of `n` copies of `v`.
pub fn filled_vec(n: usize, v: u8) -> (r: Vec<u8>)
    ensures
        r@.len() == n,
        forall|i: int| 0 <= i < n ==> r@[i] == v,
{
    let mut out: Vec<u8> = Vec::new();
    let mut i: usize = 0;
    while i < n
        invariant
            i <= n,
            out@.len() == i,
            forall|j: int| 0 <= j < i ==> out@[j] == v,
        decreases n - i,
    {
        out.push(v);
        i = i + 1;
    }
    out
}

/// Address of the work-RAM bank-select register.
pub const WRAM_BANK_ADDR: u16 = 0xFF70;

/// A RAM region mapped at `offset`, `size` bytes per bank, with `banks`
/// switchable banks selected through the bank-select register.
pub struct RamDevice {
    pub offset: usize,
    pub size: usize,
    pub banks: usize,
    pub bank: usize,
    pub memory: Vec<u8>,
}

impl RamDevice {
    pub open spec fn wf(self) -> bool {
        &&& 1 <= self.size
        &&& 1 <= self.banks
        &&& 1 <= self.bank <= self.banks
        &&& self.memory@.len() == self.size * self.banks
        &&& self.memory@.len() <= 0x100000
        &&& self.offset + self.size <= 0x10000
    }

    /// Index into the backing store for an in-range address under the
    /// current bank.
    pub open spec fn backing_index(self, addr: u16) -> int {
        (self.bank - 1) * self.size + (addr - self.offset)
    }

    /// Whether this region answers for `addr` (the bank-select register is
    /// handled separately).
    pub open spec fn in_range(self, addr: u16) -> bool {
        self.offset <= addr < self.offset + self.size
    }

    pub fn new(offset: usize, size: usize, banks: usize) -> (r: RamDevice)
        requires
            1 <= size,
            1 <= banks,
            size * banks <= 0x100000,
            offset + size <= 0x10000,
        ensures
            r.wf(),
            r.offset == offset,
            r.size == size,
            r.banks == banks,
            r.bank == 1,
            forall|i: int| 0 <= i < r.memory@.len() ==> r.memory@[i] == 0,
    {
        let memory = filled_vec(size * banks, 0);
        RamDevice { offset, size, banks, bank: 1, memory }
    }

    /// The byte a read returns: the bank-select register reads back the
    /// current bank, in-range addresses read the current bank's cell, and
    /// anything else reads as ones.
    pub open spec fn read8(self, addr: u16) -> u8 {
        if addr == WRAM_BANK_ADDR {
            self.bank as u8
        } else if self.in_range(addr) {
            self.memory@[self.backing_index(addr)]
        } else {
            0xFF
        }
    }

    /// How a write relates the state before to the state after: the
    /// bank-select register picks a bank (zero and one both select bank
    /// one, and a selection past the last bank is clamped to it), in-range
    /// addresses write the current bank's cell, and anything else is
    /// absorbed. The clamp keeps every selection inside the backing store;
    /// under the boot-time wiring the selector register reaches only the
    /// seven-bank device and the selector never exceeds three, so the
    /// clamp is never exercised there.
    pub open spec fn write8_rel(self, post: RamDevice, addr: u16, byte: u8) -> bool {
        &&& post.offset == self.offset
        &&& post.size == self.size
        &&& post.banks == self.banks
        &&& if addr == WRAM_BANK_ADDR {
            post.memory == self.memory && post.bank == self.write_bank_sel(byte)
        } else if self.in_range(addr) {
            post.bank == self.bank && post.memory@ == self.memory@.update(
                self.backing_index(addr), byte)
        } else {
            post == self
        }
    }

    pub fn get8(&self, addr: u16) -> (r: u8)
        requires
            self.wf(),
        ensures
            r == self.read8(addr),
    {
        if addr == WRAM_BANK_ADDR {
            #[verifier::truncate] (self.bank as u8)
        } else if addr as usize >= self.offset && (addr as usize) - self.offset < self.size {
            proof {
                self.lemma_backing_in_bounds(addr);
            }
            let idx = (self.bank - 1) * self.size + (addr as usize - self.offset);
            self.memory[idx]
        } else {
            0xFF
        }
    }

    pub fn set8(&mut self, addr: u16, byte: u8)
        requires
            old(self).wf(),
        ensures
            final(self).wf(),
            old(self).write8_rel(*final(self), addr, byte),
    {
        if addr == WRAM_BANK_ADDR {
            let sel: usize = match byte % 4 {
                0 | 1 => 1,
                b => b as usize,
            };
            self.bank = if sel <= self.banks {
                sel
            } else {
                self.banks
            };
        } else if addr as usize >= self.offset && (addr as usize) - self.offset < self.size {
            proof {
                self.lemma_backing_in_bounds(addr);
            }
            let idx = (self.bank - 1) * self.size + (addr as usize - self.offset);
            self.memory.set(idx, byte);
        }
    }

    /// The bank the bank-select register picks for `byte`.
    pub open spec fn write_bank_sel(self, byte: u8) -> int {
        let sel = if byte % 4 <= 1 {
            1int
        } else {
            (byte % 4) as int
        };
        if sel <= self.banks {
            sel
        } else {
            self.banks as int
        }
    }

    /// A write to one address leaves every other address reading as
    /// before, and the written cell reads back the byte.
    pub proof fn lemma_write_read(pre: RamDevice, post: RamDevice, addr: u16, byte: u8)
        requires
            pre.wf(),
            post.wf(),
            pre.write8_rel(post, addr, byte),
            addr != WRAM_BANK_ADDR,
        ensures
            pre.in_range(addr) ==> post.read8(addr) == byte,
            forall|a: u16| a != addr ==> post.read8(a) == pre.read8(a),
    {
        if pre.in_range(addr) {
            pre.lemma_backing_in_bounds(addr);
        }
        assert forall|a: u16| a != addr implies post.read8(a) == pre.read8(a) by {
            if pre.in_range(addr) && a != WRAM_BANK_ADDR && pre.in_range(a) {
                pre.lemma_backing_in_bounds(a);
                pre.lemma_backing_in_bounds(addr);
                assert(pre.backing_index(a) != pre.backing_index(addr));
            }
        }
    }

    /// The current bank's cell for an in-range address lies inside the
    /// backing store.
    proof fn lemma_backing_in_bounds(self, addr: u16)
        requires
            self.wf(),
            self.in_range(addr),
        ensures
            0 <= self.backing_index(addr) < self.memory@.len(),
    {
        assert(0 <= (self.bank - 1) * self.size + (addr - self.offset) < self.size
            * self.banks) by (nonlinear_arith)
            requires
                1 <= self.bank <= self.banks,
                1 <= self.size,
                0 <= addr - self.offset < self.size,
        ;
    }
}

/// Read-only memory of a fixed size, filled once at load time.
pub struct RomDevice {
    pub memory: Vec<u8>,
}

impl RomDevice {
    pub fn new(size: usize) -> (r: RomDevice)
        ensures
            r.memory@.len() == size,
            forall|i: int| 0 <= i < size ==> r.memory@[i] == 0,
    {
        RomDevice { memory: filled_vec(size, 0) }
    }

    pub fn load(&mut self, data: &[u8])
        requires
            data@.len() <= old(self).memory@.len(),
        ensures
            final(self).memory@.len() == old(self).memory@.len(),
            forall|i: int| 0 <= i < data@.len() ==> final(self).memory@[i] == data@[i],
            forall|i: int|
                data@.len() <= i < old(self).memory@.len() ==> final(self).memory@[i] == old(
                    self).memory@[i],
    {
        let mut i: usize = 0;
        while i < data.len()
            invariant
                i <= data@.len(),
                data@.len() <= self.memory@.len(),
                self.memory@.len() == old(self).memory@.len(),
                forall|j: int| 0 <= j < i ==> self.memory@[j] == data@[j],
                forall|j: int|
                    i <= j < self.memory@.len() ==> self.memory@[j] == old(self).memory@[j],
            decreases data@.len() - i,
        {
            let v = *vstd::slice::slice_index_get(data, i);
            self.memory.set(i, v);
            i = i + 1;
        }
    }

    pub fn get8(&self, addr: u16) -> (r: u8)
        requires
            addr < self.memory@.len(),
        ensures
            r == self.memory@[addr as int],
    {
        self.memory[addr as usize]
    }
}

/// A device that answers for the entire address space with one flat byte
/// array: the simplest wiring a CPU can run against.
pub struct EverythingDevice {
    pub memory: Vec<u8>,
}

impl EverythingDevice {
    pub open spec fn wf(self) -> bool {
        self.memory@.len() == 0x10000
    }

    pub fn new(data: &[u8]) -> (r: EverythingDevice)
        requires
            data@.len() <= 0x10000,
        ensures
            r.wf(),
            forall|i: int| 0 <= i < data@.len() ==> r.memory@[i] == data@[i],
            forall|i: int| data@.len() <= i < 0x10000 ==> r.memory@[i] == 0,
    {
        let mut d = EverythingDevice { memory: filled_vec(0x10000, 0) };
        d.load(data);
        d
    }

    pub fn load(&mut self, data: &[u8])
        requires
            old(self).wf(),
            data@.len() <= 0x10000,
        ensures
            final(self).wf(),
            forall|i: int| 0 <= i < data@.len() ==> final(self).memory@[i] == data@[i],
            forall|i: int|
                data@.len() <= i < 0x10000 ==> final(self).memory@[i] == old(self).memory@[i],
    {
        let mut i: usize = 0;
        while i < data.len()
            invariant
                i <= data@.len(),
                data@.len() <= 0x10000,
                self.memory@.len() == 0x10000,
                forall|j: int| 0 <= j < i ==> self.memory@[j] == data@[j],
                forall|j: int| i <= j < 0x10000 ==> self.memory@[j] == old(self).memory@[j],
            decreases data@.len() - i,
        {
            let v = *vstd::slice::slice_index_get(data, i);
            self.memory.set(i, v);
            i = i + 1;
        }
    }

    pub open spec fn read8(self, addr: u16) -> u8 {
        self.memory@[addr as int]
    }

    /// A write replaces exactly the addressed cell.
    pub open spec fn write8_rel(self, post: EverythingDevice, addr: u16, byte: u8) -> bool {
        post.memory@ == self.memory@.update(addr as int, byte)
    }

    pub fn get8(&self, addr: u16) -> (r: u8)
        requires
            self.wf(),
        ensures
            r == self.read8(addr),
    {
        self.memory[addr as usize]
    }

    pub fn set8(&mut self, addr: u16, byte: u8)
        requires
            old(self).wf(),
        ensures
            final(self).wf(),
            old(self).write8_rel(*final(self), addr, byte),
    {
        self.memory.set(addr as usize, byte);
    }

    /// A write to one address leaves every other address reading as
    /// before, and the written cell reads back the byte.
    pub proof fn lemma_write_read(pre: EverythingDevice, post: EverythingDevice, addr: u16,
        byte: u8)
        requires
            pre.wf(),
            post.wf(),
            pre.write8_rel(post, addr, byte),
        ensures
            post.read8(addr) == byte,
            forall|a: u16| a != addr ==> post.read8(a) == pre.read8(a),
    {
    }
}

/// The absorbing device behind intentionally unmapped addresses: writes
/// vanish and reads return ones.
pub struct NullDevice {}

impl NullDevice {
    pub fn new() -> (r: NullDevice) {
        NullDevice {  }
    }

    pub fn get8(&self, _addr: u16) -> (r: u8)
        ensures
            r == 0xFF,
    {
        0xFF
    }

    pub fn set8(&mut self, _addr: u16, _byte: u8)
        ensures
            *final(self) == *old(self),
    {
    }
}

} // verus!
