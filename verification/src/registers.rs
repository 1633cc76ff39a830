//! The register file: eight 8-bit cells (four of which pair into 16-bit
//! views), the stack pointer and the program counter, and the packing of the
//! four condition flags into the top nibble of `F`.

use vstd::prelude::*;

use crate::bits::{bit, combine16, high_byte, low_byte, spec_bit, spec_combine16,
    spec_high_byte, spec_low_byte};

verus! {

#[derive(Copy, Clone, Debug)]
pub enum Register {
    A,
    B,
    C,
    D,
    E,
    F,
    H,
    L,
    AF,
    BC,
    DE,
    HL,
    SP,
    PC,
}

impl Register {
    /// Names that denote a single 8-bit cell.
    pub open spec fn is_8bit(self) -> bool {
        match self {
            Register::A | Register::B | Register::C | Register::D | Register::E
            | Register::F | Register::H | Register::L => true,
            _ => false,
        }
    }

    /// Names that denote a 16-bit view: a pair, the stack pointer or the
    /// program counter.
    pub open spec fn is_16bit(self) -> bool {
        !self.is_8bit()
    }
}

pub struct Registers {
    pub a: u8,
    pub b: u8,
    pub c: u8,
    pub d: u8,
    pub e: u8,
    pub f: u8,
    pub h: u8,
    pub l: u8,
    pub sp: u16,
    pub pc: u16,
}

/// The flag byte built from the four condition flags: Zero, Subtract,
/// Half-carry and Carry in bits 7 to 4, with the low nibble zero.
pub open spec fn spec_pack_flags(z: bool, n: bool, h: bool, cy: bool) -> u8 {
    ((if z { 128int } else { 0 }) + (if n { 64int } else { 0 })
        + (if h { 32int } else { 0 }) + (if cy { 16int } else { 0 })) as u8
}

impl Registers {
    /// The value an 8-bit register name denotes in this state.
    pub open spec fn spec_get8(self, r: Register) -> u8 {
        match r {
            Register::A => self.a,
            Register::B => self.b,
            Register::C => self.c,
            Register::D => self.d,
            Register::E => self.e,
            Register::F => self.f,
            Register::H => self.h,
            Register::L => self.l,
            _ => 0,
        }
    }

    /// The value a 16-bit register name denotes in this state: a pair reads
    /// as high byte times 256 plus low byte.
    pub open spec fn spec_get16(self, r: Register) -> u16 {
        match r {
            Register::AF => spec_combine16(self.a, self.f),
            Register::BC => spec_combine16(self.b, self.c),
            Register::DE => spec_combine16(self.d, self.e),
            Register::HL => spec_combine16(self.h, self.l),
            Register::SP => self.sp,
            Register::PC => self.pc,
            _ => 0,
        }
    }

    /// The state after writing an 8-bit register.
    pub open spec fn spec_set8(self, r: Register, v: u8) -> Registers {
        match r {
            Register::A => Registers { a: v, ..self },
            Register::B => Registers { b: v, ..self },
            Register::C => Registers { c: v, ..self },
            Register::D => Registers { d: v, ..self },
            Register::E => Registers { e: v, ..self },
            Register::F => Registers { f: v, ..self },
            Register::H => Registers { h: v, ..self },
            Register::L => Registers { l: v, ..self },
            _ => self,
        }
    }

    /// The state after writing a 16-bit register: a pair takes the high byte
    /// in its first cell and the low byte in its second.
    pub open spec fn spec_set16(self, r: Register, v: u16) -> Registers {
        match r {
            Register::AF => Registers { a: spec_high_byte(v), f: spec_low_byte(v), ..self },
            Register::BC => Registers { b: spec_high_byte(v), c: spec_low_byte(v), ..self },
            Register::DE => Registers { d: spec_high_byte(v), e: spec_low_byte(v), ..self },
            Register::HL => Registers { h: spec_high_byte(v), l: spec_low_byte(v), ..self },
            Register::SP => Registers { sp: v, ..self },
            Register::PC => Registers { pc: v, ..self },
            _ => self,
        }
    }

    /// Zero flag of this state, as 0 or 1.
    pub open spec fn spec_z(self) -> u8 {
        spec_bit(self.f, 7)
    }

    /// Subtract flag of this state, as 0 or 1.
    pub open spec fn spec_n(self) -> u8 {
        spec_bit(self.f, 6)
    }

    /// Half-carry flag of this state, as 0 or 1.
    pub open spec fn spec_h(self) -> u8 {
        spec_bit(self.f, 5)
    }

    /// Carry flag of this state, as 0 or 1.
    pub open spec fn spec_cy(self) -> u8 {
        spec_bit(self.f, 4)
    }

    /// A fresh register file: every cell zero, as at power-on.
    pub fn new() -> (r: Registers)
        ensures
            r == (Registers {
                a: 0, b: 0, c: 0, d: 0, e: 0, f: 0, h: 0, l: 0, sp: 0, pc: 0,
            }),
    {
        Registers { a: 0, b: 0, c: 0, d: 0, e: 0, f: 0, h: 0, l: 0, sp: 0, pc: 0 }
    }

    pub fn get8(&self, r: Register) -> (v: u8)
        requires
            r.is_8bit(),
        ensures
            v == self.spec_get8(r),
    {
        match r {
            Register::A => self.a,
            Register::B => self.b,
            Register::C => self.c,
            Register::D => self.d,
            Register::E => self.e,
            Register::F => self.f,
            Register::H => self.h,
            Register::L => self.l,
            _ => 0,
        }
    }

    pub fn get16(&self, r: Register) -> (v: u16)
        requires
            r.is_16bit(),
        ensures
            v == self.spec_get16(r),
    {
        match r {
            Register::AF => combine16(self.a, self.f),
            Register::BC => combine16(self.b, self.c),
            Register::DE => combine16(self.d, self.e),
            Register::HL => combine16(self.h, self.l),
            Register::SP => self.sp,
            Register::PC => self.pc,
            _ => 0,
        }
    }

    pub fn set8(&mut self, r: Register, v: u8)
        requires
            r.is_8bit(),
        ensures
            *final(self) == old(self).spec_set8(r, v),
    {
        match r {
            Register::A => self.a = v,
            Register::B => self.b = v,
            Register::C => self.c = v,
            Register::D => self.d = v,
            Register::E => self.e = v,
            Register::F => self.f = v,
            Register::H => self.h = v,
            Register::L => self.l = v,
            _ => (),
        }
    }

    pub fn set16(&mut self, r: Register, v: u16)
        requires
            r.is_16bit(),
        ensures
            *final(self) == old(self).spec_set16(r, v),
    {
        match r {
            Register::AF => {
                self.a = high_byte(v);
                self.f = low_byte(v);
            }
            Register::BC => {
                self.b = high_byte(v);
                self.c = low_byte(v);
            }
            Register::DE => {
                self.d = high_byte(v);
                self.e = low_byte(v);
            }
            Register::HL => {
                self.h = high_byte(v);
                self.l = low_byte(v);
            }
            Register::SP => self.sp = v,
            Register::PC => self.pc = v,
            _ => (),
        }
    }

    pub fn pc(&self) -> (v: u16)
        ensures
            v == self.pc,
    {
        self.pc
    }

    /// Advance the program counter by `n`, wrapping at the top of the 16-bit
    /// address space as the hardware does.
    pub fn inc_pc(&mut self, n: u16)
        ensures
            final(self).pc == (old(self).pc + n) % 0x10000,
            *final(self) == (Registers { pc: final(self).pc, ..*old(self) }),
    {
        self.pc = ((self.pc as u32 + n as u32) % 0x10000) as u16;
    }

    /// Pack the four condition flags into the top nibble of `F`; the bottom
    /// nibble is always zero.
    pub fn set_flags(&mut self, z: bool, n: bool, h: bool, cy: bool)
        ensures
            *final(self) == (Registers { f: spec_pack_flags(z, n, h, cy), ..*old(self) }),
            final(self).spec_z() == (if z { 1int } else { 0 }),
            final(self).spec_n() == (if n { 1int } else { 0 }),
            final(self).spec_h() == (if h { 1int } else { 0 }),
            final(self).spec_cy() == (if cy { 1int } else { 0 }),
            final(self).f & 0xF == 0,
    {
        let zi: u8 = if z { 128 } else { 0 };
        let ni: u8 = if n { 64 } else { 0 };
        let hi: u8 = if h { 32 } else { 0 };
        let ci: u8 = if cy { 16 } else { 0 };
        self.f = zi + ni + hi + ci;
        proof {
            lemma_flag_bits(z, n, h, cy);
        }
    }

    pub fn z_flag(&self) -> (r: u8)
        ensures
            r == self.spec_z(),
            r == 0 || r == 1,
    {
        bit(self.f, 7)
    }

    pub fn n_flag(&self) -> (r: u8)
        ensures
            r == self.spec_n(),
            r == 0 || r == 1,
    {
        bit(self.f, 6)
    }

    pub fn h_flag(&self) -> (r: u8)
        ensures
            r == self.spec_h(),
            r == 0 || r == 1,
    {
        bit(self.f, 5)
    }

    pub fn cy_flag(&self) -> (r: u8)
        ensures
            r == self.spec_cy(),
            r == 0 || r == 1,
    {
        bit(self.f, 4)
    }
}

/// Each packed flag reads back as the bit it was packed from, and the low
/// nibble of the packed byte is zero.
pub proof fn lemma_flag_bits(z: bool, n: bool, h: bool, cy: bool)
    ensures
        spec_bit(spec_pack_flags(z, n, h, cy), 7) == (if z { 1int } else { 0 }),
        spec_bit(spec_pack_flags(z, n, h, cy), 6) == (if n { 1int } else { 0 }),
        spec_bit(spec_pack_flags(z, n, h, cy), 5) == (if h { 1int } else { 0 }),
        spec_bit(spec_pack_flags(z, n, h, cy), 4) == (if cy { 1int } else { 0 }),
        spec_pack_flags(z, n, h, cy) & 0xF == 0,
{
    let zi: u8 = if z { 1 } else { 0 };
    let ni: u8 = if n { 1 } else { 0 };
    let hi: u8 = if h { 1 } else { 0 };
    let ci: u8 = if cy { 1 } else { 0 };
    assert({
        &&& (((128 * zi + 64 * ni + 32 * hi + 16 * ci) as u8) >> 7) & 1 == zi
        &&& (((128 * zi + 64 * ni + 32 * hi + 16 * ci) as u8) >> 6) & 1 == ni
        &&& (((128 * zi + 64 * ni + 32 * hi + 16 * ci) as u8) >> 5) & 1 == hi
        &&& (((128 * zi + 64 * ni + 32 * hi + 16 * ci) as u8) >> 4) & 1 == ci
        &&& ((128 * zi + 64 * ni + 32 * hi + 16 * ci) as u8) & 0xF == 0
    }) by (bit_vector)
        requires
            zi <= 1,
            ni <= 1,
            hi <= 1,
            ci <= 1,
    ;
    assert(spec_pack_flags(z, n, h, cy) == (128 * zi + 64 * ni + 32 * hi + 16 * ci) as u8);
}

/// Writing a 16-bit pair and reading it back gives the value written, and
/// the two constituent 8-bit cells of a pair hold exactly the shifted and
/// masked halves of the value.
pub proof fn lemma_set16_get16(regs: Registers, r: Register, v: u16)
    requires
        r.is_16bit(),
    ensures
        regs.spec_set16(r, v).spec_get16(r) == v,
        r is AF ==> regs.spec_set16(r, v).spec_get8(Register::A) == v >> 8 && regs.spec_set16(
            r, v).spec_get8(Register::F) == v & 0xFF,
        r is BC ==> regs.spec_set16(r, v).spec_get8(Register::B) == v >> 8 && regs.spec_set16(
            r, v).spec_get8(Register::C) == v & 0xFF,
        r is DE ==> regs.spec_set16(r, v).spec_get8(Register::D) == v >> 8 && regs.spec_set16(
            r, v).spec_get8(Register::E) == v & 0xFF,
        r is HL ==> regs.spec_set16(r, v).spec_get8(Register::H) == v >> 8 && regs.spec_set16(
            r, v).spec_get8(Register::L) == v & 0xFF,
{
    crate::bits::lemma_combine_split(v);
}

} // verus!
