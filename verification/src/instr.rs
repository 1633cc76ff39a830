//! The instruction decoder: a pure function from a three-byte window at the
//! program counter to a structured record of opcode, operand descriptors,
//! cycle cost and byte length, covering the base table and the extended
//! (0xCB-prefixed) table of rotate, shift and bit operations.
//!
//! Conditional jumps, calls and returns report the "taken" cycle cost; the
//! execution engine subtracts a fixed penalty when the condition is false.

use vstd::prelude::*;

use crate::registers::Register;
use crate::registers::Register::{A, B, C, D, E, H, L, AF, BC, DE, HL, SP};
use crate::bits::spec_combine16;
use vstd::slice::slice_index_get;

verus! {

/// An operand descriptor: a register, a register-indirect memory cell, an
/// immediate, or an address. Which kinds are legal depends on the opcode and
/// on whether an 8-bit or a 16-bit value is expected.
#[derive(Copy, Clone, Debug)]
pub enum Src {
    Reg(Register),
    Deref(Register),
    A8(u8),
    A16(u16),
    D8(u8),
    D16(u16),
    I8(i8),
}

#[derive(Copy, Clone, Debug)]
pub enum FlagCondition {
    Z,
    NZ,
    C,
    NC,
    ALWAYS,
}

#[derive(Copy, Clone, Debug)]
pub enum Opcode {
    NOP,
    LD8(Src, Src),
    LD8I(Src, Src),
    LD8D(Src, Src),
    LD16(Src, Src),
    PUSH(Register),
    POP(Register),
    ADD8(Src),
    ADC8(Src),
    SUB8(Src),
    SBC8(Src),
    AND(Src),
    OR(Src),
    XOR(Src),
    CP(Src),
    INC8(Src),
    DEC8(Src),
    ADD16(Register, Src),
    INC16(Register),
    DEC16(Register),
    RLCA,
    RLA,
    RRCA,
    RRA,
    RLC(Src),
    RL(Src),
    RRC(Src),
    RR(Src),
    SLA(Src),
    SRA(Src),
    SRL(Src),
    SWAP(Src),
    BIT(u8, Src),
    SET(u8, Src),
    RES(u8, Src),
    JP(FlagCondition, Src),
    JR(FlagCondition, i8),
    CALL(FlagCondition, u16),
    RET(FlagCondition),
    RETI,
    RST(u8),
    DAA,
    CPL,
    CCF,
    SCF,
    DI,
    EI,
    HALT,
    STOP,
    INVALID(u8),
}

use Opcode::{NOP, LD8, LD8I, LD8D, LD16, PUSH, POP, ADD8, ADC8, SUB8, SBC8, AND,
    OR, XOR, CP, INC8, DEC8, ADD16, INC16, DEC16, RLCA, RLA, RRCA, RRA, RLC, RL,
    RRC, RR, SLA, SRA, SRL, SWAP, BIT, SET, RES, JP, JR, CALL, RET, RETI, RST,
    DAA, CPL, CCF, SCF, DI, EI, HALT, STOP, INVALID};

/// A decoded instruction: opcode with operands, taken-path cycle cost, and
/// length in bytes.
#[derive(Clone, Copy)]
pub struct Instr {
    pub opcode: Opcode,
    pub cycles: u32,
    pub n_bytes: u16,
}

impl Src {
    /// Descriptors an 8-bit value can be read from.
    pub open spec fn readable8(self) -> bool {
        match self {
            Src::Reg(r) => r.is_8bit(),
            Src::D8(_) => true,
            Src::Deref(r) => r is C || r is BC || r is DE || r is HL,
            Src::A8(_) => true,
            Src::A16(_) => true,
            _ => false,
        }
    }

    /// Descriptors an 8-bit value can be written to: as `readable8` but an
    /// immediate is no destination.
    pub open spec fn writable8(self) -> bool {
        self.readable8() && !(self is D8)
    }

    /// Descriptors a 16-bit value can be read from.
    pub open spec fn readable16(self) -> bool {
        match self {
            Src::Reg(r) => r.is_16bit(),
            Src::D16(_) => true,
            Src::I8(_) => true,
            _ => false,
        }
    }

    /// Descriptors a 16-bit value can be written to; the program counter
    /// is never a plain load destination.
    pub open spec fn writable16(self) -> bool {
        match self {
            Src::Reg(r) => r is BC || r is DE || r is HL || r is SP,
            Src::A16(_) => true,
            _ => false,
        }
    }
}

impl Instr {
    /// Structural legality of a decoded instruction: every operand descriptor
    /// fits the width its opcode expects, and the cycle cost covers the
    /// penalty that an untaken condition subtracts.
    pub open spec fn wf(self) -> bool {
        &&& 1 <= self.n_bytes <= 3
        &&& 1 <= self.cycles <= 6
        &&& match self.opcode {
            NOP | RLCA | RLA | RRCA | RRA | DAA | CPL | CCF | SCF | DI | EI
            | HALT | STOP | RETI => true,
            INVALID(_) => true,
            LD8(dst, src) => dst.writable8() && src.readable8(),
            LD8I(dst, src) => dst.writable8() && src.readable8(),
            LD8D(dst, src) => dst.writable8() && src.readable8(),
            LD16(dst, src) => dst.writable16() && (src.readable16() || (dst == Src::Reg(HL) && src is I8)),
            PUSH(r) => r is AF || r is BC || r is DE || r is HL,
            POP(r) => r is AF || r is BC || r is DE || r is HL,
            ADD8(src) | ADC8(src) | SUB8(src) | SBC8(src) | AND(src) | OR(src)
            | XOR(src) | CP(src) => src.readable8(),
            INC8(dst) | DEC8(dst) => dst.writable8(),
            ADD16(r, src) => (r is HL || r is SP) && src.readable16(),
            INC16(r) | DEC16(r) => r is BC || r is DE || r is HL || r is SP,
            RLC(dst) | RL(dst) | RRC(dst) | RR(dst) | SLA(dst) | SRA(dst)
            | SRL(dst) | SWAP(dst) => dst.writable8(),
            BIT(bi, src) => bi < 8 && src.readable8(),
            SET(bi, dst) => bi < 8 && dst.writable8(),
            RES(bi, dst) => bi < 8 && dst.writable8(),
            JP(fc, target) => target.readable16() && (fc is ALWAYS || self.cycles == 4),
            JR(fc, _) => fc is ALWAYS || self.cycles == 4,
            CALL(fc, _) => fc is ALWAYS || self.cycles == 6,
            RET(fc) => fc is ALWAYS || self.cycles == 5,
            RST(a) => a == 0x00 || a == 0x08 || a == 0x10 || a == 0x18
                || a == 0x20 || a == 0x28 || a == 0x30 || a == 0x38,
        }
    }

    /// Opcodes that redirect control flow when they fire; every other opcode
    /// leaves the program counter to advance by the instruction length.
    pub open spec fn is_control(self) -> bool {
        match self.opcode {
            JP(_, _) | JR(_, _) | CALL(_, _) | RET(_) | RETI | RST(_) => true,
            _ => false,
        }
    }
}

/// Helper to state a decode table entry.
pub open spec fn instr(opcode: Opcode, cycles: u32, n_bytes: u16) -> Instr {
    Instr { opcode, cycles, n_bytes }
}

/// The extended (0xCB-prefixed) decode table, keyed by the byte after the
/// prefix: rotates, shifts, swap and bit test/set/clear over the eight 8-bit
/// operand locations.
pub open spec fn spec_decode_cb(b1: u8) -> Instr {
    let operand = spec_cb_operand(b1);
    let hl = (b1 & 0x07) == 6;
    if b1 < 0x40 {
        let cycles: u32 = if hl { 4 } else { 2 };
        match b1 >> 3 {
            0 => instr(RLC(operand), cycles, 2),
            1 => instr(RRC(operand), cycles, 2),
            2 => instr(RL(operand), cycles, 2),
            3 => instr(RR(operand), cycles, 2),
            4 => instr(SLA(operand), cycles, 2),
            5 => instr(SRA(operand), cycles, 2),
            6 => instr(SWAP(operand), cycles, 2),
            _ => instr(SRL(operand), cycles, 2),
        }
    } else {
        let bi = (b1 >> 3) & 0x07;
        if b1 < 0x80 {
            instr(BIT(bi, operand), if hl { 3 } else { 2 }, 2)
        } else if b1 < 0xC0 {
            instr(RES(bi, operand), if hl { 4 } else { 2 }, 2)
        } else {
            instr(SET(bi, operand), if hl { 4 } else { 2 }, 2)
        }
    }
}

/// The operand location an extended opcode acts on, selected by its low
/// three bits.
pub open spec fn spec_cb_operand(b1: u8) -> Src {
    match b1 & 0x07 {
        0 => Src::Reg(B),
        1 => Src::Reg(C),
        2 => Src::Reg(D),
        3 => Src::Reg(E),
        4 => Src::Reg(H),
        5 => Src::Reg(L),
        6 => Src::Deref(HL),
        _ => Src::Reg(A),
    }
}

/// The base decode table: `b0` is the byte at the program counter, `b1` the
/// byte after it, and `b21` the 16-bit immediate formed from the third and
/// second bytes (high byte last).
#[verifier::opaque]
pub open spec fn spec_decode(b0: u8, b1: u8, b2: u8) -> Instr {
    let b21 = spec_combine16(b2, b1);
    if b0 == 0xCB {
        spec_decode_cb(b1)
    } else {
        match b0 {
        0x00 => instr(NOP, 1, 1),
        0x01 => instr(LD16(Src::Reg(BC), Src::D16(b21)), 3, 3),
        0x02 => instr(LD8(Src::Deref(BC), Src::Reg(A)), 2, 1),
        0x03 => instr(INC16(BC), 2, 1),
        0x04 => instr(INC8(Src::Reg(B)), 1, 1),
        0x05 => instr(DEC8(Src::Reg(B)), 1, 1),
        0x06 => instr(LD8(Src::Reg(B), Src::D8(b1)), 2, 2),
        0x07 => instr(RLCA, 1, 1),
        0x08 => instr(LD16(Src::A16(b21), Src::Reg(SP)), 5, 3),
        0x09 => instr(ADD16(HL, Src::Reg(BC)), 2, 1),
        0x0A => instr(LD8(Src::Reg(A), Src::Deref(BC)), 2, 1),
        0x0B => instr(DEC16(BC), 2, 1),
        0x0C => instr(INC8(Src::Reg(C)), 1, 1),
        0x0D => instr(DEC8(Src::Reg(C)), 1, 1),
        0x0E => instr(LD8(Src::Reg(C), Src::D8(b1)), 2, 2),
        0x0F => instr(RRCA, 1, 1),
        0x10 => instr(STOP, 1, 1),
        0x11 => instr(LD16(Src::Reg(DE), Src::D16(b21)), 3, 3),
        0x12 => instr(LD8(Src::Deref(DE), Src::Reg(A)), 2, 1),
        0x13 => instr(INC16(DE), 2, 1),
        0x14 => instr(INC8(Src::Reg(D)), 1, 1),
        0x15 => instr(DEC8(Src::Reg(D)), 1, 1),
        0x16 => instr(LD8(Src::Reg(D), Src::D8(b1)), 2, 2),
        0x17 => instr(RLA, 1, 1),
        0x18 => instr(JR(FlagCondition::ALWAYS, b1 as i8), 3, 2),
        0x19 => instr(ADD16(HL, Src::Reg(DE)), 2, 1),
        0x1A => instr(LD8(Src::Reg(A), Src::Deref(DE)), 2, 1),
        0x1B => instr(DEC16(DE), 2, 1),
        0x1C => instr(INC8(Src::Reg(E)), 1, 1),
        0x1D => instr(DEC8(Src::Reg(E)), 1, 1),
        0x1E => instr(LD8(Src::Reg(E), Src::D8(b1)), 2, 2),
        0x1F => instr(RRA, 1, 1),
        0x20 => instr(JR(FlagCondition::NZ, b1 as i8), 4, 2),
        0x21 => instr(LD16(Src::Reg(HL), Src::D16(b21)), 3, 3),
        0x22 => instr(LD8I(Src::Deref(HL), Src::Reg(A)), 2, 1),
        0x23 => instr(INC16(HL), 2, 1),
        0x24 => instr(INC8(Src::Reg(H)), 1, 1),
        0x25 => instr(DEC8(Src::Reg(H)), 1, 1),
        0x26 => instr(LD8(Src::Reg(H), Src::D8(b1)), 2, 2),
        0x27 => instr(DAA, 1, 1),
        0x28 => instr(JR(FlagCondition::Z, b1 as i8), 4, 2),
        0x29 => instr(ADD16(HL, Src::Reg(HL)), 2, 1),
        0x2A => instr(LD8I(Src::Reg(A), Src::Deref(HL)), 2, 1),
        0x2B => instr(DEC16(HL), 2, 1),
        0x2C => instr(INC8(Src::Reg(L)), 1, 1),
        0x2D => instr(DEC8(Src::Reg(L)), 1, 1),
        0x2E => instr(LD8(Src::Reg(L), Src::D8(b1)), 2, 2),
        0x2F => instr(CPL, 1, 1),
        0x30 => instr(JR(FlagCondition::NC, b1 as i8), 4, 2),
        0x31 => instr(LD16(Src::Reg(SP), Src::D16(b21)), 3, 3),
        0x32 => instr(LD8D(Src::Deref(HL), Src::Reg(A)), 2, 1),
        0x33 => instr(INC16(SP), 2, 1),
        0x34 => instr(INC8(Src::Deref(HL)), 3, 1),
        0x35 => instr(DEC8(Src::Deref(HL)), 3, 1),
        0x36 => instr(LD8(Src::Deref(HL), Src::D8(b1)), 2, 2),
        0x37 => instr(SCF, 1, 1),
        0x38 => instr(JR(FlagCondition::C, b1 as i8), 4, 2),
        0x39 => instr(ADD16(HL, Src::Reg(SP)), 2, 1),
        0x3A => instr(LD8D(Src::Reg(A), Src::Deref(HL)), 2, 1),
        0x3B => instr(DEC16(SP), 2, 1),
        0x3C => instr(INC8(Src::Reg(A)), 1, 1),
        0x3D => instr(DEC8(Src::Reg(A)), 1, 1),
        0x3E => instr(LD8(Src::Reg(A), Src::D8(b1)), 2, 2),
        0x3F => instr(CCF, 1, 1),
        0x40 => instr(LD8(Src::Reg(B), Src::Reg(B)), 1, 1),
        0x41 => instr(LD8(Src::Reg(B), Src::Reg(C)), 1, 1),
        0x42 => instr(LD8(Src::Reg(B), Src::Reg(D)), 1, 1),
        0x43 => instr(LD8(Src::Reg(B), Src::Reg(E)), 1, 1),
        0x44 => instr(LD8(Src::Reg(B), Src::Reg(H)), 1, 1),
        0x45 => instr(LD8(Src::Reg(B), Src::Reg(L)), 1, 1),
        0x46 => instr(LD8(Src::Reg(B), Src::Deref(HL)), 2, 1),
        0x47 => instr(LD8(Src::Reg(B), Src::Reg(A)), 1, 1),
        0x48 => instr(LD8(Src::Reg(C), Src::Reg(B)), 1, 1),
        0x49 => instr(LD8(Src::Reg(C), Src::Reg(C)), 1, 1),
        0x4A => instr(LD8(Src::Reg(C), Src::Reg(D)), 1, 1),
        0x4B => instr(LD8(Src::Reg(C), Src::Reg(E)), 1, 1),
        0x4C => instr(LD8(Src::Reg(C), Src::Reg(H)), 1, 1),
        0x4D => instr(LD8(Src::Reg(C), Src::Reg(L)), 1, 1),
        0x4E => instr(LD8(Src::Reg(C), Src::Deref(HL)), 2, 1),
        0x4F => instr(LD8(Src::Reg(C), Src::Reg(A)), 1, 1),
        0x50 => instr(LD8(Src::Reg(D), Src::Reg(B)), 1, 1),
        0x51 => instr(LD8(Src::Reg(D), Src::Reg(C)), 1, 1),
        0x52 => instr(LD8(Src::Reg(D), Src::Reg(D)), 1, 1),
        0x53 => instr(LD8(Src::Reg(D), Src::Reg(E)), 1, 1),
        0x54 => instr(LD8(Src::Reg(D), Src::Reg(H)), 1, 1),
        0x55 => instr(LD8(Src::Reg(D), Src::Reg(L)), 1, 1),
        0x56 => instr(LD8(Src::Reg(D), Src::Deref(HL)), 2, 1),
        0x57 => instr(LD8(Src::Reg(D), Src::Reg(A)), 1, 1),
        0x58 => instr(LD8(Src::Reg(E), Src::Reg(B)), 1, 1),
        0x59 => instr(LD8(Src::Reg(E), Src::Reg(C)), 1, 1),
        0x5A => instr(LD8(Src::Reg(E), Src::Reg(D)), 1, 1),
        0x5B => instr(LD8(Src::Reg(E), Src::Reg(E)), 1, 1),
        0x5C => instr(LD8(Src::Reg(E), Src::Reg(H)), 1, 1),
        0x5D => instr(LD8(Src::Reg(E), Src::Reg(L)), 1, 1),
        0x5E => instr(LD8(Src::Reg(E), Src::Deref(HL)), 2, 1),
        0x5F => instr(LD8(Src::Reg(E), Src::Reg(A)), 1, 1),
        0x60 => instr(LD8(Src::Reg(H), Src::Reg(B)), 1, 1),
        0x61 => instr(LD8(Src::Reg(H), Src::Reg(C)), 1, 1),
        0x62 => instr(LD8(Src::Reg(H), Src::Reg(D)), 1, 1),
        0x63 => instr(LD8(Src::Reg(H), Src::Reg(E)), 1, 1),
        0x64 => instr(LD8(Src::Reg(H), Src::Reg(H)), 1, 1),
        0x65 => instr(LD8(Src::Reg(H), Src::Reg(L)), 1, 1),
        0x66 => instr(LD8(Src::Reg(H), Src::Deref(HL)), 2, 1),
        0x67 => instr(LD8(Src::Reg(H), Src::Reg(A)), 1, 1),
        0x68 => instr(LD8(Src::Reg(L), Src::Reg(B)), 1, 1),
        0x69 => instr(LD8(Src::Reg(L), Src::Reg(C)), 1, 1),
        0x6A => instr(LD8(Src::Reg(L), Src::Reg(D)), 1, 1),
        0x6B => instr(LD8(Src::Reg(L), Src::Reg(E)), 1, 1),
        0x6C => instr(LD8(Src::Reg(L), Src::Reg(H)), 1, 1),
        0x6D => instr(LD8(Src::Reg(L), Src::Reg(L)), 1, 1),
        0x6E => instr(LD8(Src::Reg(L), Src::Deref(HL)), 2, 1),
        0x6F => instr(LD8(Src::Reg(L), Src::Reg(A)), 1, 1),
        0x70 => instr(LD8(Src::Deref(HL), Src::Reg(B)), 1, 1),
        0x71 => instr(LD8(Src::Deref(HL), Src::Reg(C)), 1, 1),
        0x72 => instr(LD8(Src::Deref(HL), Src::Reg(D)), 1, 1),
        0x73 => instr(LD8(Src::Deref(HL), Src::Reg(E)), 1, 1),
        0x74 => instr(LD8(Src::Deref(HL), Src::Reg(H)), 1, 1),
        0x75 => instr(LD8(Src::Deref(HL), Src::Reg(L)), 1, 1),
        0x76 => instr(HALT, 1, 1),
        0x77 => instr(LD8(Src::Deref(HL), Src::Reg(A)), 1, 1),
        0x78 => instr(LD8(Src::Reg(A), Src::Reg(B)), 1, 1),
        0x79 => instr(LD8(Src::Reg(A), Src::Reg(C)), 1, 1),
        0x7A => instr(LD8(Src::Reg(A), Src::Reg(D)), 1, 1),
        0x7B => instr(LD8(Src::Reg(A), Src::Reg(E)), 1, 1),
        0x7C => instr(LD8(Src::Reg(A), Src::Reg(H)), 1, 1),
        0x7D => instr(LD8(Src::Reg(A), Src::Reg(L)), 1, 1),
        0x7E => instr(LD8(Src::Reg(A), Src::Deref(HL)), 2, 1),
        0x7F => instr(LD8(Src::Reg(A), Src::Reg(A)), 1, 1),
        0x80 => instr(ADD8(Src::Reg(B)), 1, 1),
        0x81 => instr(ADD8(Src::Reg(C)), 1, 1),
        0x82 => instr(ADD8(Src::Reg(D)), 1, 1),
        0x83 => instr(ADD8(Src::Reg(E)), 1, 1),
        0x84 => instr(ADD8(Src::Reg(H)), 1, 1),
        0x85 => instr(ADD8(Src::Reg(L)), 1, 1),
        0x86 => instr(ADD8(Src::Deref(HL)), 2, 1),
        0x87 => instr(ADD8(Src::Reg(A)), 1, 1),
        0x88 => instr(ADC8(Src::Reg(B)), 1, 1),
        0x89 => instr(ADC8(Src::Reg(C)), 1, 1),
        0x8A => instr(ADC8(Src::Reg(D)), 1, 1),
        0x8B => instr(ADC8(Src::Reg(E)), 1, 1),
        0x8C => instr(ADC8(Src::Reg(H)), 1, 1),
        0x8D => instr(ADC8(Src::Reg(L)), 1, 1),
        0x8E => instr(ADC8(Src::Deref(HL)), 2, 1),
        0x8F => instr(ADC8(Src::Reg(A)), 1, 1),
        0x90 => instr(SUB8(Src::Reg(B)), 1, 1),
        0x91 => instr(SUB8(Src::Reg(C)), 1, 1),
        0x92 => instr(SUB8(Src::Reg(D)), 1, 1),
        0x93 => instr(SUB8(Src::Reg(E)), 1, 1),
        0x94 => instr(SUB8(Src::Reg(H)), 1, 1),
        0x95 => instr(SUB8(Src::Reg(L)), 1, 1),
        0x96 => instr(SUB8(Src::Deref(HL)), 2, 1),
        0x97 => instr(SUB8(Src::Reg(A)), 1, 1),
        0x98 => instr(SBC8(Src::Reg(B)), 1, 1),
        0x99 => instr(SBC8(Src::Reg(C)), 1, 1),
        0x9A => instr(SBC8(Src::Reg(D)), 1, 1),
        0x9B => instr(SBC8(Src::Reg(E)), 1, 1),
        0x9C => instr(SBC8(Src::Reg(H)), 1, 1),
        0x9D => instr(SBC8(Src::Reg(L)), 1, 1),
        0x9E => instr(SBC8(Src::Deref(HL)), 2, 1),
        0x9F => instr(SBC8(Src::Reg(A)), 1, 1),
        0xA0 => instr(AND(Src::Reg(B)), 1, 1),
        0xA1 => instr(AND(Src::Reg(C)), 1, 1),
        0xA2 => instr(AND(Src::Reg(D)), 1, 1),
        0xA3 => instr(AND(Src::Reg(E)), 1, 1),
        0xA4 => instr(AND(Src::Reg(H)), 1, 1),
        0xA5 => instr(AND(Src::Reg(L)), 1, 1),
        0xA6 => instr(AND(Src::Deref(HL)), 2, 1),
        0xA7 => instr(AND(Src::Reg(A)), 1, 1),
        0xA8 => instr(XOR(Src::Reg(B)), 1, 1),
        0xA9 => instr(XOR(Src::Reg(C)), 1, 1),
        0xAA => instr(XOR(Src::Reg(D)), 1, 1),
        0xAB => instr(XOR(Src::Reg(E)), 1, 1),
        0xAC => instr(XOR(Src::Reg(H)), 1, 1),
        0xAD => instr(XOR(Src::Reg(L)), 1, 1),
        0xAE => instr(XOR(Src::Deref(HL)), 2, 1),
        0xAF => instr(XOR(Src::Reg(A)), 1, 1),
        0xB0 => instr(OR(Src::Reg(B)), 1, 1),
        0xB1 => instr(OR(Src::Reg(C)), 1, 1),
        0xB2 => instr(OR(Src::Reg(D)), 1, 1),
        0xB3 => instr(OR(Src::Reg(E)), 1, 1),
        0xB4 => instr(OR(Src::Reg(H)), 1, 1),
        0xB5 => instr(OR(Src::Reg(L)), 1, 1),
        0xB6 => instr(OR(Src::Deref(HL)), 2, 1),
        0xB7 => instr(OR(Src::Reg(A)), 1, 1),
        0xB8 => instr(CP(Src::Reg(B)), 1, 1),
        0xB9 => instr(CP(Src::Reg(C)), 1, 1),
        0xBA => instr(CP(Src::Reg(D)), 1, 1),
        0xBB => instr(CP(Src::Reg(E)), 1, 1),
        0xBC => instr(CP(Src::Reg(H)), 1, 1),
        0xBD => instr(CP(Src::Reg(L)), 1, 1),
        0xBE => instr(CP(Src::Deref(HL)), 2, 1),
        0xBF => instr(CP(Src::Reg(A)), 1, 1),
        0xC0 => instr(RET(FlagCondition::NZ), 5, 1),
        0xC1 => instr(POP(BC), 4, 1),
        0xC2 => instr(JP(FlagCondition::NZ, Src::D16(b21)), 4, 3),
        0xC3 => instr(JP(FlagCondition::ALWAYS, Src::D16(b21)), 4, 3),
        0xC4 => instr(CALL(FlagCondition::NZ, b21), 6, 3),
        0xC5 => instr(PUSH(BC), 4, 1),
        0xC6 => instr(ADD8(Src::D8(b1)), 2, 2),
        0xC7 => instr(RST(0x00), 4, 1),
        0xC8 => instr(RET(FlagCondition::Z), 5, 1),
        0xC9 => instr(RET(FlagCondition::ALWAYS), 4, 1),
        0xCA => instr(JP(FlagCondition::Z, Src::D16(b21)), 4, 3),
        0xCC => instr(CALL(FlagCondition::Z, b21), 6, 3),
        0xCD => instr(CALL(FlagCondition::ALWAYS, b21), 6, 3),
        0xCE => instr(ADC8(Src::D8(b1)), 2, 2),
        0xCF => instr(RST(0x08), 4, 1),
        0xD0 => instr(RET(FlagCondition::NC), 5, 1),
        0xD1 => instr(POP(DE), 4, 1),
        0xD2 => instr(JP(FlagCondition::NC, Src::D16(b21)), 4, 3),
        0xD3 => instr(INVALID(b0), 1, 1),
        0xD4 => instr(CALL(FlagCondition::NC, b21), 6, 3),
        0xD5 => instr(PUSH(DE), 4, 1),
        0xD6 => instr(SUB8(Src::D8(b1)), 2, 2),
        0xD7 => instr(RST(0x10), 4, 1),
        0xD8 => instr(RET(FlagCondition::C), 5, 1),
        0xD9 => instr(RETI, 4, 1),
        0xDA => instr(JP(FlagCondition::C, Src::D16(b21)), 4, 3),
        0xDB => instr(INVALID(b0), 1, 1),
        0xDC => instr(CALL(FlagCondition::C, b21), 6, 3),
        0xDD => instr(INVALID(b0), 1, 1),
        0xDE => instr(SBC8(Src::D8(b1)), 2, 2),
        0xDF => instr(RST(0x18), 4, 1),
        0xE0 => instr(LD8(Src::A8(b1), Src::Reg(A)), 3, 2),
        0xE1 => instr(POP(HL), 4, 1),
        0xE2 => instr(LD8(Src::Deref(C), Src::Reg(A)), 2, 1),
        0xE3 => instr(INVALID(b0), 1, 1),
        0xE4 => instr(INVALID(b0), 1, 1),
        0xE5 => instr(PUSH(HL), 4, 1),
        0xE6 => instr(AND(Src::D8(b1)), 2, 2),
        0xE7 => instr(RST(0x20), 4, 1),
        0xE8 => instr(ADD16(SP, Src::I8(b1 as i8)), 4, 2),
        0xE9 => instr(JP(FlagCondition::ALWAYS, Src::Reg(HL)), 1, 1),
        0xEA => instr(LD8(Src::A16(b21), Src::Reg(A)), 4, 3),
        0xEB => instr(INVALID(b0), 1, 1),
        0xEC => instr(INVALID(b0), 1, 1),
        0xED => instr(INVALID(b0), 1, 1),
        0xEE => instr(XOR(Src::D8(b1)), 2, 2),
        0xEF => instr(RST(0x28), 4, 1),
        0xF0 => instr(LD8(Src::Reg(A), Src::A8(b1)), 3, 2),
        0xF1 => instr(POP(AF), 4, 1),
        0xF2 => instr(LD8(Src::Reg(A), Src::Deref(C)), 2, 1),
        0xF3 => instr(DI, 1, 1),
        0xF4 => instr(INVALID(b0), 1, 1),
        0xF5 => instr(PUSH(AF), 4, 1),
        0xF6 => instr(OR(Src::D8(b1)), 2, 2),
        0xF7 => instr(RST(0x30), 4, 1),
        0xF8 => instr(LD16(Src::Reg(HL), Src::I8(b1 as i8)), 3, 2),
        0xF9 => instr(LD16(Src::Reg(SP), Src::Reg(HL)), 2, 1),
        0xFA => instr(LD8(Src::Reg(A), Src::A16(b21)), 4, 3),
        0xFB => instr(EI, 1, 1),
        0xFC => instr(INVALID(b0), 1, 1),
        0xFD => instr(INVALID(b0), 1, 1),
        0xFE => instr(CP(Src::D8(b1)), 2, 2),
        0xFF => instr(RST(0x38), 4, 1),
            _ => instr(INVALID(b0), 1, 1),
        }
    }
}

fn n(opcode: Opcode, cycles: u32, n_bytes: u16) -> (r: Instr)
    ensures
        r == instr(opcode, cycles, n_bytes),
{
    Instr { opcode, cycles, n_bytes }
}

fn cb_operand(b1: u8) -> (r: Src)
    ensures
        r == spec_cb_operand(b1),
{
    match b1 & 0x07 {
        0 => Src::Reg(B),
        1 => Src::Reg(C),
        2 => Src::Reg(D),
        3 => Src::Reg(E),
        4 => Src::Reg(H),
        5 => Src::Reg(L),
        6 => Src::Deref(HL),
        _ => Src::Reg(A),
    }
}

fn disassemble_cb(b1: u8) -> (r: Instr)
    ensures
        r == spec_decode_cb(b1),
{
    let operand = cb_operand(b1);
    let hl = (b1 & 0x07) == 6;
    if b1 < 0x40 {
        let cycles: u32 = if hl { 4 } else { 2 };
        match b1 >> 3 {
            0 => n(RLC(operand), cycles, 2),
            1 => n(RRC(operand), cycles, 2),
            2 => n(RL(operand), cycles, 2),
            3 => n(RR(operand), cycles, 2),
            4 => n(SLA(operand), cycles, 2),
            5 => n(SRA(operand), cycles, 2),
            6 => n(SWAP(operand), cycles, 2),
            _ => n(SRL(operand), cycles, 2),
        }
    } else {
        let bi = (b1 >> 3) & 0x07;
        if b1 < 0x80 {
            n(BIT(bi, operand), if hl { 3 } else { 2 }, 2)
        } else if b1 < 0xC0 {
            n(RES(bi, operand), if hl { 4 } else { 2 }, 2)
        } else {
            n(SET(bi, operand), if hl { 4 } else { 2 }, 2)
        }
    }
}

impl Instr {
    /// Decode the instruction that starts at `bytes[0]`; the two following
    /// bytes supply the immediates of longer encodings. An unrecognized
    /// primary byte decodes to an explicit invalid-opcode record, never to
    /// another instruction.
    pub fn disassemble(bytes: &[u8]) -> (r: Instr)
        requires
            bytes@.len() >= 3,
        ensures
            r == spec_decode(bytes@[0], bytes@[1], bytes@[2]),
            r.wf(),
    {
        proof {
            reveal(spec_decode);
        }
        let b0 = *slice_index_get(bytes, 0);
        let b1 = *slice_index_get(bytes, 1);
        let b2 = *slice_index_get(bytes, 2);
        let b21 = crate::bits::combine16(b2, b1);
        let b1s: i8 = #[verifier::truncate] (b1 as i8);

        if b0 == 0xCB {
            let r = disassemble_cb(b1);
            proof {
                lemma_cb_wf(b1);
            }
            r
        } else {
            match b0 {
            0x00 => n(NOP, 1, 1),
            0x01 => n(LD16(Src::Reg(BC), Src::D16(b21)), 3, 3),
            0x02 => n(LD8(Src::Deref(BC), Src::Reg(A)), 2, 1),
            0x03 => n(INC16(BC), 2, 1),
            0x04 => n(INC8(Src::Reg(B)), 1, 1),
            0x05 => n(DEC8(Src::Reg(B)), 1, 1),
            0x06 => n(LD8(Src::Reg(B), Src::D8(b1)), 2, 2),
            0x07 => n(RLCA, 1, 1),
            0x08 => n(LD16(Src::A16(b21), Src::Reg(SP)), 5, 3),
            0x09 => n(ADD16(HL, Src::Reg(BC)), 2, 1),
            0x0A => n(LD8(Src::Reg(A), Src::Deref(BC)), 2, 1),
            0x0B => n(DEC16(BC), 2, 1),
            0x0C => n(INC8(Src::Reg(C)), 1, 1),
            0x0D => n(DEC8(Src::Reg(C)), 1, 1),
            0x0E => n(LD8(Src::Reg(C), Src::D8(b1)), 2, 2),
            0x0F => n(RRCA, 1, 1),
            0x10 => n(STOP, 1, 1),
            0x11 => n(LD16(Src::Reg(DE), Src::D16(b21)), 3, 3),
            0x12 => n(LD8(Src::Deref(DE), Src::Reg(A)), 2, 1),
            0x13 => n(INC16(DE), 2, 1),
            0x14 => n(INC8(Src::Reg(D)), 1, 1),
            0x15 => n(DEC8(Src::Reg(D)), 1, 1),
            0x16 => n(LD8(Src::Reg(D), Src::D8(b1)), 2, 2),
            0x17 => n(RLA, 1, 1),
            0x18 => n(JR(FlagCondition::ALWAYS, b1s), 3, 2),
            0x19 => n(ADD16(HL, Src::Reg(DE)), 2, 1),
            0x1A => n(LD8(Src::Reg(A), Src::Deref(DE)), 2, 1),
            0x1B => n(DEC16(DE), 2, 1),
            0x1C => n(INC8(Src::Reg(E)), 1, 1),
            0x1D => n(DEC8(Src::Reg(E)), 1, 1),
            0x1E => n(LD8(Src::Reg(E), Src::D8(b1)), 2, 2),
            0x1F => n(RRA, 1, 1),
            0x20 => n(JR(FlagCondition::NZ, b1s), 4, 2),
            0x21 => n(LD16(Src::Reg(HL), Src::D16(b21)), 3, 3),
            0x22 => n(LD8I(Src::Deref(HL), Src::Reg(A)), 2, 1),
            0x23 => n(INC16(HL), 2, 1),
            0x24 => n(INC8(Src::Reg(H)), 1, 1),
            0x25 => n(DEC8(Src::Reg(H)), 1, 1),
            0x26 => n(LD8(Src::Reg(H), Src::D8(b1)), 2, 2),
            0x27 => n(DAA, 1, 1),
            0x28 => n(JR(FlagCondition::Z, b1s), 4, 2),
            0x29 => n(ADD16(HL, Src::Reg(HL)), 2, 1),
            0x2A => n(LD8I(Src::Reg(A), Src::Deref(HL)), 2, 1),
            0x2B => n(DEC16(HL), 2, 1),
            0x2C => n(INC8(Src::Reg(L)), 1, 1),
            0x2D => n(DEC8(Src::Reg(L)), 1, 1),
            0x2E => n(LD8(Src::Reg(L), Src::D8(b1)), 2, 2),
            0x2F => n(CPL, 1, 1),
            0x30 => n(JR(FlagCondition::NC, b1s), 4, 2),
            0x31 => n(LD16(Src::Reg(SP), Src::D16(b21)), 3, 3),
            0x32 => n(LD8D(Src::Deref(HL), Src::Reg(A)), 2, 1),
            0x33 => n(INC16(SP), 2, 1),
            0x34 => n(INC8(Src::Deref(HL)), 3, 1),
            0x35 => n(DEC8(Src::Deref(HL)), 3, 1),
            0x36 => n(LD8(Src::Deref(HL), Src::D8(b1)), 2, 2),
            0x37 => n(SCF, 1, 1),
            0x38 => n(JR(FlagCondition::C, b1s), 4, 2),
            0x39 => n(ADD16(HL, Src::Reg(SP)), 2, 1),
            0x3A => n(LD8D(Src::Reg(A), Src::Deref(HL)), 2, 1),
            0x3B => n(DEC16(SP), 2, 1),
            0x3C => n(INC8(Src::Reg(A)), 1, 1),
            0x3D => n(DEC8(Src::Reg(A)), 1, 1),
            0x3E => n(LD8(Src::Reg(A), Src::D8(b1)), 2, 2),
            0x3F => n(CCF, 1, 1),
            0x40 => n(LD8(Src::Reg(B), Src::Reg(B)), 1, 1),
            0x41 => n(LD8(Src::Reg(B), Src::Reg(C)), 1, 1),
            0x42 => n(LD8(Src::Reg(B), Src::Reg(D)), 1, 1),
            0x43 => n(LD8(Src::Reg(B), Src::Reg(E)), 1, 1),
            0x44 => n(LD8(Src::Reg(B), Src::Reg(H)), 1, 1),
            0x45 => n(LD8(Src::Reg(B), Src::Reg(L)), 1, 1),
            0x46 => n(LD8(Src::Reg(B), Src::Deref(HL)), 2, 1),
            0x47 => n(LD8(Src::Reg(B), Src::Reg(A)), 1, 1),
            0x48 => n(LD8(Src::Reg(C), Src::Reg(B)), 1, 1),
            0x49 => n(LD8(Src::Reg(C), Src::Reg(C)), 1, 1),
            0x4A => n(LD8(Src::Reg(C), Src::Reg(D)), 1, 1),
            0x4B => n(LD8(Src::Reg(C), Src::Reg(E)), 1, 1),
            0x4C => n(LD8(Src::Reg(C), Src::Reg(H)), 1, 1),
            0x4D => n(LD8(Src::Reg(C), Src::Reg(L)), 1, 1),
            0x4E => n(LD8(Src::Reg(C), Src::Deref(HL)), 2, 1),
            0x4F => n(LD8(Src::Reg(C), Src::Reg(A)), 1, 1),
            0x50 => n(LD8(Src::Reg(D), Src::Reg(B)), 1, 1),
            0x51 => n(LD8(Src::Reg(D), Src::Reg(C)), 1, 1),
            0x52 => n(LD8(Src::Reg(D), Src::Reg(D)), 1, 1),
            0x53 => n(LD8(Src::Reg(D), Src::Reg(E)), 1, 1),
            0x54 => n(LD8(Src::Reg(D), Src::Reg(H)), 1, 1),
            0x55 => n(LD8(Src::Reg(D), Src::Reg(L)), 1, 1),
            0x56 => n(LD8(Src::Reg(D), Src::Deref(HL)), 2, 1),
            0x57 => n(LD8(Src::Reg(D), Src::Reg(A)), 1, 1),
            0x58 => n(LD8(Src::Reg(E), Src::Reg(B)), 1, 1),
            0x59 => n(LD8(Src::Reg(E), Src::Reg(C)), 1, 1),
            0x5A => n(LD8(Src::Reg(E), Src::Reg(D)), 1, 1),
            0x5B => n(LD8(Src::Reg(E), Src::Reg(E)), 1, 1),
            0x5C => n(LD8(Src::Reg(E), Src::Reg(H)), 1, 1),
            0x5D => n(LD8(Src::Reg(E), Src::Reg(L)), 1, 1),
            0x5E => n(LD8(Src::Reg(E), Src::Deref(HL)), 2, 1),
            0x5F => n(LD8(Src::Reg(E), Src::Reg(A)), 1, 1),
            0x60 => n(LD8(Src::Reg(H), Src::Reg(B)), 1, 1),
            0x61 => n(LD8(Src::Reg(H), Src::Reg(C)), 1, 1),
            0x62 => n(LD8(Src::Reg(H), Src::Reg(D)), 1, 1),
            0x63 => n(LD8(Src::Reg(H), Src::Reg(E)), 1, 1),
            0x64 => n(LD8(Src::Reg(H), Src::Reg(H)), 1, 1),
            0x65 => n(LD8(Src::Reg(H), Src::Reg(L)), 1, 1),
            0x66 => n(LD8(Src::Reg(H), Src::Deref(HL)), 2, 1),
            0x67 => n(LD8(Src::Reg(H), Src::Reg(A)), 1, 1),
            0x68 => n(LD8(Src::Reg(L), Src::Reg(B)), 1, 1),
            0x69 => n(LD8(Src::Reg(L), Src::Reg(C)), 1, 1),
            0x6A => n(LD8(Src::Reg(L), Src::Reg(D)), 1, 1),
            0x6B => n(LD8(Src::Reg(L), Src::Reg(E)), 1, 1),
            0x6C => n(LD8(Src::Reg(L), Src::Reg(H)), 1, 1),
            0x6D => n(LD8(Src::Reg(L), Src::Reg(L)), 1, 1),
            0x6E => n(LD8(Src::Reg(L), Src::Deref(HL)), 2, 1),
            0x6F => n(LD8(Src::Reg(L), Src::Reg(A)), 1, 1),
            0x70 => n(LD8(Src::Deref(HL), Src::Reg(B)), 1, 1),
            0x71 => n(LD8(Src::Deref(HL), Src::Reg(C)), 1, 1),
            0x72 => n(LD8(Src::Deref(HL), Src::Reg(D)), 1, 1),
            0x73 => n(LD8(Src::Deref(HL), Src::Reg(E)), 1, 1),
            0x74 => n(LD8(Src::Deref(HL), Src::Reg(H)), 1, 1),
            0x75 => n(LD8(Src::Deref(HL), Src::Reg(L)), 1, 1),
            0x76 => n(HALT, 1, 1),
            0x77 => n(LD8(Src::Deref(HL), Src::Reg(A)), 1, 1),
            0x78 => n(LD8(Src::Reg(A), Src::Reg(B)), 1, 1),
            0x79 => n(LD8(Src::Reg(A), Src::Reg(C)), 1, 1),
            0x7A => n(LD8(Src::Reg(A), Src::Reg(D)), 1, 1),
            0x7B => n(LD8(Src::Reg(A), Src::Reg(E)), 1, 1),
            0x7C => n(LD8(Src::Reg(A), Src::Reg(H)), 1, 1),
            0x7D => n(LD8(Src::Reg(A), Src::Reg(L)), 1, 1),
            0x7E => n(LD8(Src::Reg(A), Src::Deref(HL)), 2, 1),
            0x7F => n(LD8(Src::Reg(A), Src::Reg(A)), 1, 1),
            0x80 => n(ADD8(Src::Reg(B)), 1, 1),
            0x81 => n(ADD8(Src::Reg(C)), 1, 1),
            0x82 => n(ADD8(Src::Reg(D)), 1, 1),
            0x83 => n(ADD8(Src::Reg(E)), 1, 1),
            0x84 => n(ADD8(Src::Reg(H)), 1, 1),
            0x85 => n(ADD8(Src::Reg(L)), 1, 1),
            0x86 => n(ADD8(Src::Deref(HL)), 2, 1),
            0x87 => n(ADD8(Src::Reg(A)), 1, 1),
            0x88 => n(ADC8(Src::Reg(B)), 1, 1),
            0x89 => n(ADC8(Src::Reg(C)), 1, 1),
            0x8A => n(ADC8(Src::Reg(D)), 1, 1),
            0x8B => n(ADC8(Src::Reg(E)), 1, 1),
            0x8C => n(ADC8(Src::Reg(H)), 1, 1),
            0x8D => n(ADC8(Src::Reg(L)), 1, 1),
            0x8E => n(ADC8(Src::Deref(HL)), 2, 1),
            0x8F => n(ADC8(Src::Reg(A)), 1, 1),
            0x90 => n(SUB8(Src::Reg(B)), 1, 1),
            0x91 => n(SUB8(Src::Reg(C)), 1, 1),
            0x92 => n(SUB8(Src::Reg(D)), 1, 1),
            0x93 => n(SUB8(Src::Reg(E)), 1, 1),
            0x94 => n(SUB8(Src::Reg(H)), 1, 1),
            0x95 => n(SUB8(Src::Reg(L)), 1, 1),
            0x96 => n(SUB8(Src::Deref(HL)), 2, 1),
            0x97 => n(SUB8(Src::Reg(A)), 1, 1),
            0x98 => n(SBC8(Src::Reg(B)), 1, 1),
            0x99 => n(SBC8(Src::Reg(C)), 1, 1),
            0x9A => n(SBC8(Src::Reg(D)), 1, 1),
            0x9B => n(SBC8(Src::Reg(E)), 1, 1),
            0x9C => n(SBC8(Src::Reg(H)), 1, 1),
            0x9D => n(SBC8(Src::Reg(L)), 1, 1),
            0x9E => n(SBC8(Src::Deref(HL)), 2, 1),
            0x9F => n(SBC8(Src::Reg(A)), 1, 1),
            0xA0 => n(AND(Src::Reg(B)), 1, 1),
            0xA1 => n(AND(Src::Reg(C)), 1, 1),
            0xA2 => n(AND(Src::Reg(D)), 1, 1),
            0xA3 => n(AND(Src::Reg(E)), 1, 1),
            0xA4 => n(AND(Src::Reg(H)), 1, 1),
            0xA5 => n(AND(Src::Reg(L)), 1, 1),
            0xA6 => n(AND(Src::Deref(HL)), 2, 1),
            0xA7 => n(AND(Src::Reg(A)), 1, 1),
            0xA8 => n(XOR(Src::Reg(B)), 1, 1),
            0xA9 => n(XOR(Src::Reg(C)), 1, 1),
            0xAA => n(XOR(Src::Reg(D)), 1, 1),
            0xAB => n(XOR(Src::Reg(E)), 1, 1),
            0xAC => n(XOR(Src::Reg(H)), 1, 1),
            0xAD => n(XOR(Src::Reg(L)), 1, 1),
            0xAE => n(XOR(Src::Deref(HL)), 2, 1),
            0xAF => n(XOR(Src::Reg(A)), 1, 1),
            0xB0 => n(OR(Src::Reg(B)), 1, 1),
            0xB1 => n(OR(Src::Reg(C)), 1, 1),
            0xB2 => n(OR(Src::Reg(D)), 1, 1),
            0xB3 => n(OR(Src::Reg(E)), 1, 1),
            0xB4 => n(OR(Src::Reg(H)), 1, 1),
            0xB5 => n(OR(Src::Reg(L)), 1, 1),
            0xB6 => n(OR(Src::Deref(HL)), 2, 1),
            0xB7 => n(OR(Src::Reg(A)), 1, 1),
            0xB8 => n(CP(Src::Reg(B)), 1, 1),
            0xB9 => n(CP(Src::Reg(C)), 1, 1),
            0xBA => n(CP(Src::Reg(D)), 1, 1),
            0xBB => n(CP(Src::Reg(E)), 1, 1),
            0xBC => n(CP(Src::Reg(H)), 1, 1),
            0xBD => n(CP(Src::Reg(L)), 1, 1),
            0xBE => n(CP(Src::Deref(HL)), 2, 1),
            0xBF => n(CP(Src::Reg(A)), 1, 1),
            0xC0 => n(RET(FlagCondition::NZ), 5, 1),
            0xC1 => n(POP(BC), 4, 1),
            0xC2 => n(JP(FlagCondition::NZ, Src::D16(b21)), 4, 3),
            0xC3 => n(JP(FlagCondition::ALWAYS, Src::D16(b21)), 4, 3),
            0xC4 => n(CALL(FlagCondition::NZ, b21), 6, 3),
            0xC5 => n(PUSH(BC), 4, 1),
            0xC6 => n(ADD8(Src::D8(b1)), 2, 2),
            0xC7 => n(RST(0x00), 4, 1),
            0xC8 => n(RET(FlagCondition::Z), 5, 1),
            0xC9 => n(RET(FlagCondition::ALWAYS), 4, 1),
            0xCA => n(JP(FlagCondition::Z, Src::D16(b21)), 4, 3),
            0xCC => n(CALL(FlagCondition::Z, b21), 6, 3),
            0xCD => n(CALL(FlagCondition::ALWAYS, b21), 6, 3),
            0xCE => n(ADC8(Src::D8(b1)), 2, 2),
            0xCF => n(RST(0x08), 4, 1),
            0xD0 => n(RET(FlagCondition::NC), 5, 1),
            0xD1 => n(POP(DE), 4, 1),
            0xD2 => n(JP(FlagCondition::NC, Src::D16(b21)), 4, 3),
            0xD3 => n(INVALID(b0), 1, 1),
            0xD4 => n(CALL(FlagCondition::NC, b21), 6, 3),
            0xD5 => n(PUSH(DE), 4, 1),
            0xD6 => n(SUB8(Src::D8(b1)), 2, 2),
            0xD7 => n(RST(0x10), 4, 1),
            0xD8 => n(RET(FlagCondition::C), 5, 1),
            0xD9 => n(RETI, 4, 1),
            0xDA => n(JP(FlagCondition::C, Src::D16(b21)), 4, 3),
            0xDB => n(INVALID(b0), 1, 1),
            0xDC => n(CALL(FlagCondition::C, b21), 6, 3),
            0xDD => n(INVALID(b0), 1, 1),
            0xDE => n(SBC8(Src::D8(b1)), 2, 2),
            0xDF => n(RST(0x18), 4, 1),
            0xE0 => n(LD8(Src::A8(b1), Src::Reg(A)), 3, 2),
            0xE1 => n(POP(HL), 4, 1),
            0xE2 => n(LD8(Src::Deref(C), Src::Reg(A)), 2, 1),
            0xE3 => n(INVALID(b0), 1, 1),
            0xE4 => n(INVALID(b0), 1, 1),
            0xE5 => n(PUSH(HL), 4, 1),
            0xE6 => n(AND(Src::D8(b1)), 2, 2),
            0xE7 => n(RST(0x20), 4, 1),
            0xE8 => n(ADD16(SP, Src::I8(b1s)), 4, 2),
            0xE9 => n(JP(FlagCondition::ALWAYS, Src::Reg(HL)), 1, 1),
            0xEA => n(LD8(Src::A16(b21), Src::Reg(A)), 4, 3),
            0xEB => n(INVALID(b0), 1, 1),
            0xEC => n(INVALID(b0), 1, 1),
            0xED => n(INVALID(b0), 1, 1),
            0xEE => n(XOR(Src::D8(b1)), 2, 2),
            0xEF => n(RST(0x28), 4, 1),
            0xF0 => n(LD8(Src::Reg(A), Src::A8(b1)), 3, 2),
            0xF1 => n(POP(AF), 4, 1),
            0xF2 => n(LD8(Src::Reg(A), Src::Deref(C)), 2, 1),
            0xF3 => n(DI, 1, 1),
            0xF4 => n(INVALID(b0), 1, 1),
            0xF5 => n(PUSH(AF), 4, 1),
            0xF6 => n(OR(Src::D8(b1)), 2, 2),
            0xF7 => n(RST(0x30), 4, 1),
            0xF8 => n(LD16(Src::Reg(HL), Src::I8(b1s)), 3, 2),
            0xF9 => n(LD16(Src::Reg(SP), Src::Reg(HL)), 2, 1),
            0xFA => n(LD8(Src::Reg(A), Src::A16(b21)), 4, 3),
            0xFB => n(EI, 1, 1),
            0xFC => n(INVALID(b0), 1, 1),
            0xFD => n(INVALID(b0), 1, 1),
            0xFE => n(CP(Src::D8(b1)), 2, 2),
            0xFF => n(RST(0x38), 4, 1),
                _ => n(INVALID(b0), 1, 1),
            }
        }
    }
}

/// Every entry of the extended table is structurally legal.
proof fn lemma_cb_wf(b1: u8)
    ensures
        spec_decode_cb(b1).wf(),
{
    assert((b1 >> 3) & 0x07 < 8) by (bit_vector);
    assert(b1 >= 0x40 ==> ((b1 >> 3) & 0x07 == (b1 >> 3) % 8)) by (bit_vector);
}

} // verus!
