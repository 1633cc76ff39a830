//! The CPU execution engine: fetch three bytes at the program counter,
//! decode, execute, and report the machine cycles consumed. The contract
//! pins down the cycle cost of every instruction (conditional branches pay
//! their fixed penalty when the condition fails), the program-counter
//! discipline (advance by the instruction length unless control flow was
//! redirected), and the full effect of the stack, jump, arithmetic and
//! interrupt-latch instructions.

use vstd::prelude::*;

use crate::alu;
use crate::bits::{spec_combine16, spec_high_byte, spec_low_byte};
use crate::bus::MemoryBus;
use crate::gameboy::Mode;
use crate::instr::{FlagCondition, Instr, Opcode, Src};
use crate::registers::{spec_pack_flags, Register, Registers};

verus! {

pub struct Cpu {
    pub registers: Registers,
    pub ime: bool,
    pub halted: bool,
    pub debug: bool,
}

/// Whether a flag condition holds in a register state.
pub open spec fn spec_cond(fc: FlagCondition, regs: Registers) -> bool {
    match fc {
        FlagCondition::Z => regs.spec_z() == 1,
        FlagCondition::NZ => regs.spec_z() == 0,
        FlagCondition::C => regs.spec_cy() == 1,
        FlagCondition::NC => regs.spec_cy() == 0,
        FlagCondition::ALWAYS => true,
    }
}

/// The 8-bit value an operand descriptor denotes, reading registers or the
/// bus as its kind requires.
pub open spec fn spec_src8(regs: Registers, bus: MemoryBus, s: Src) -> u8 {
    match s {
        Src::Reg(r) => regs.spec_get8(r),
        Src::D8(v) => v,
        Src::Deref(Register::C) => bus.read8((0xFF00 + regs.c) as u16),
        Src::Deref(r) => bus.read8(regs.spec_get16(r)),
        Src::A8(a) => bus.read8((0xFF00 + a) as u16),
        Src::A16(a) => bus.read8(a),
        _ => 0,
    }
}

/// The memory address an 8-bit memory destination denotes.
pub open spec fn spec_dst8_addr(regs: Registers, s: Src) -> u16 {
    match s {
        Src::Deref(Register::C) => (0xFF00 + regs.c) as u16,
        Src::Deref(r) => regs.spec_get16(r),
        Src::A8(a) => (0xFF00 + a) as u16,
        Src::A16(a) => a,
        _ => 0,
    }
}

/// The 16-bit value an operand descriptor denotes; a signed immediate is
/// sign-extended.
pub open spec fn spec_src16(regs: Registers, s: Src) -> u16 {
    match s {
        Src::Reg(r) => regs.spec_get16(r),
        Src::D16(v) => v,
        Src::I8(v) => v as u16,
        _ => 0,
    }
}

/// The instruction decoded from the three bytes at the program counter.
pub open spec fn spec_decoded(cpu: Cpu, bus: MemoryBus) -> Instr {
    crate::instr::spec_decode(bus.read8(cpu.registers.pc), bus.read8(
        (cpu.registers.pc + 1) as u16), bus.read8((cpu.registers.pc + 2) as u16))
}

/// The program counter after a plain advance by the decoded instruction's
/// byte length, wrapping at the top of the address space.
pub open spec fn pc_after(cpu: Cpu, bus: MemoryBus) -> u16 {
    ((cpu.registers.pc + spec_decoded(cpu, bus).n_bytes) % 0x10000) as u16
}

/// The decimal-adjust correction amount and carry-out, from the
/// accumulator and the subtract, half-carry and carry flags of the
/// previous arithmetic operation: a table-free branch, not a simple add.
pub open spec fn spec_daa(a: u8, n: bool, h: bool, cy: bool) -> (int, bool) {
    let ln = a & 0xF;
    let hn = (a >> 4) & 0xF;
    if n {
        if !cy {
            if hn <= 8 && ln >= 6 && h {
                (0xFA as int, false)
            } else {
                (0, false)
            }
        } else {
            if hn >= 7 && !h && ln <= 9 {
                (0xA0 as int, true)
            } else if hn >= 6 && h && ln >= 6 {
                (0x9A as int, true)
            } else {
                (0, false)
            }
        }
    } else {
        let low: int = if ln >= 10 || h {
            6
        } else {
            0
        };
        if hn >= 10 || cy {
            (low + 0x60, true)
        } else {
            (low, false)
        }
    }
}

/// The whole decimal-adjust step: the corrected accumulator and the flag
/// byte it leaves behind.
pub open spec fn spec_daa_result(regs: Registers) -> (u8, u8) {
    let n = regs.spec_n() == 1;
    let adj = spec_daa(regs.a, n, regs.spec_h() == 1, regs.spec_cy() == 1);
    let r = ((regs.a + adj.0) % 256) as u8;
    (r, spec_pack_flags(r == 0, n, false, adj.1))
}

/// The effect of one 8-bit load, including the post-increment and
/// post-decrement forms that adjust the address pair by `hl_step` after
/// the transfer.
pub open spec fn ld8_rel(pre: Cpu, pre_bus: MemoryBus, post: Cpu, post_bus: MemoryBus,
    pc_next: u16, dst: Src, src: Src, hl_step: int) -> bool {
    let regs = pre.registers;
    let v = spec_src8(regs, pre_bus, src);
    let mid = if dst is Reg {
        regs.spec_set8(dst->Reg_0, v)
    } else {
        regs
    };
    let stepped = if hl_step == 0 {
        mid
    } else {
        mid.spec_set16(Register::HL, ((mid.spec_get16(Register::HL) + hl_step + 0x10000)
            % 0x10000) as u16)
    };
    &&& post == (Cpu { registers: (Registers { pc: pc_next, ..stepped }), ..pre })
    &&& (dst is Reg ==> post_bus == pre_bus)
    &&& (!(dst is Reg) ==> pre_bus.write8_rel(post_bus, spec_dst8_addr(regs, dst), v))
}

/// The effect of one 8-bit increment or decrement: the result `v` lands
/// where the operand lives (a register cell or one byte of memory), the
/// zero, subtract and half-carry flags are packed from `z`/`n`/`h`, and the
/// carry flag is preserved.
pub open spec fn incdec8_rel(pre: Cpu, pre_bus: MemoryBus, post: Cpu, post_bus: MemoryBus,
    pc_next: u16, dst: Src, v: u8, z: bool, n: bool, h: bool) -> bool {
    let regs = pre.registers;
    let mid = if dst is Reg {
        regs.spec_set8(dst->Reg_0, v)
    } else {
        regs
    };
    &&& post == (Cpu {
        registers: (Registers {
            pc: pc_next,
            f: spec_pack_flags(z, n, h, mid.spec_cy() == 1),
            ..mid
        }),
        ..pre
    })
    &&& (dst is Reg ==> post_bus == pre_bus)
    &&& (!(dst is Reg) ==> pre_bus.write8_rel(post_bus, spec_dst8_addr(regs, dst), v))
}

/// The effect of a rotate, shift or swap instruction: the result `v` lands
/// where the operand lives (a register cell or one byte of memory) and the
/// flag byte becomes `f_new`.
pub open spec fn store8_flags_rel(pre: Cpu, pre_bus: MemoryBus, post: Cpu,
    post_bus: MemoryBus, pc_next: u16, dst: Src, v: u8, f_new: u8) -> bool {
    let regs = pre.registers;
    let mid = if dst is Reg {
        regs.spec_set8(dst->Reg_0, v)
    } else {
        regs
    };
    &&& post == (Cpu { registers: (Registers { pc: pc_next, f: f_new, ..mid }), ..pre })
    &&& (dst is Reg ==> post_bus == pre_bus)
    &&& (!(dst is Reg) ==> pre_bus.write8_rel(post_bus, spec_dst8_addr(regs, dst), v))
}

/// The effect of one extended-table instruction: the eight rotate, shift
/// and swap families with their exact results and flags, the bit test that
/// only sets flags, and the bit set/clear pair that only stores.
pub open spec fn rotbit_rel(pre: Cpu, pre_bus: MemoryBus, post: Cpu, post_bus: MemoryBus,
    pc_next: u16, op: Opcode) -> bool {
    let regs = pre.registers;
    match op {
        Opcode::RLC(dst) => {
            let a = spec_src8(regs, pre_bus, dst);
            let v = (a << 1) | crate::bits::spec_bit(a, 7);
            store8_flags_rel(pre, pre_bus, post, post_bus, pc_next, dst, v, spec_pack_flags(
                v == 0, false, false, crate::bits::spec_bit(a, 7) == 1))
        }
        Opcode::RL(dst) => {
            let a = spec_src8(regs, pre_bus, dst);
            let v = (a << 1) | regs.spec_cy();
            store8_flags_rel(pre, pre_bus, post, post_bus, pc_next, dst, v, spec_pack_flags(
                v == 0, false, false, crate::bits::spec_bit(a, 7) == 1))
        }
        Opcode::RRC(dst) => {
            let a = spec_src8(regs, pre_bus, dst);
            let v = (a >> 1) | ((a & 1) << 7);
            store8_flags_rel(pre, pre_bus, post, post_bus, pc_next, dst, v, spec_pack_flags(
                v == 0, false, false, a & 1 == 1))
        }
        Opcode::RR(dst) => {
            let a = spec_src8(regs, pre_bus, dst);
            let v = (a >> 1) | (regs.spec_cy() << 7);
            store8_flags_rel(pre, pre_bus, post, post_bus, pc_next, dst, v, spec_pack_flags(
                v == 0, false, false, a & 1 == 1))
        }
        Opcode::SLA(dst) => {
            let a = spec_src8(regs, pre_bus, dst);
            let v = a << 1;
            store8_flags_rel(pre, pre_bus, post, post_bus, pc_next, dst, v, spec_pack_flags(
                v == 0, false, false, crate::bits::spec_bit(a, 7) == 1))
        }
        Opcode::SRA(dst) => {
            let a = spec_src8(regs, pre_bus, dst);
            let v = (a >> 1) | (crate::bits::spec_bit(a, 7) << 7);
            store8_flags_rel(pre, pre_bus, post, post_bus, pc_next, dst, v, spec_pack_flags(
                v == 0, false, false, a & 1 == 1))
        }
        Opcode::SRL(dst) => {
            let a = spec_src8(regs, pre_bus, dst);
            let v = a >> 1;
            store8_flags_rel(pre, pre_bus, post, post_bus, pc_next, dst, v, spec_pack_flags(
                v == 0, false, false, a & 1 == 1))
        }
        Opcode::SWAP(dst) => {
            let a = spec_src8(regs, pre_bus, dst);
            let v = (a << 4) | (a >> 4);
            store8_flags_rel(pre, pre_bus, post, post_bus, pc_next, dst, v, spec_pack_flags(
                v == 0, false, false, false))
        }
        Opcode::BIT(bi, src) => {
            let a = spec_src8(regs, pre_bus, src);
            &&& post_bus == pre_bus
            &&& post == (Cpu {
                registers: (Registers {
                    pc: pc_next,
                    f: spec_pack_flags(crate::bits::spec_bit(a, bi) == 0, false, true,
                        regs.spec_cy() == 1),
                    ..regs
                }),
                ..pre
            })
        }
        Opcode::RES(bi, dst) => ld8_rel(pre, pre_bus, post, post_bus, pc_next, dst, Src::D8(
            spec_src8(regs, pre_bus, dst) & (0xFF ^ ((1 as u8) << bi))), 0),
        Opcode::SET(bi, dst) => ld8_rel(pre, pre_bus, post, post_bus, pc_next, dst, Src::D8(
            spec_src8(regs, pre_bus, dst) | ((1 as u8) << bi)), 0),
        _ => true,
    }
}

/// The effect of one 16-bit load: into a register pair; from the stack
/// pointer plus a signed offset (the one form that also sets the half-carry
/// and carry flags); or into two bytes of memory, high byte first.
pub open spec fn ld16_rel(pre: Cpu, pre_bus: MemoryBus, post: Cpu, post_bus: MemoryBus,
    pc_next: u16, dst: Src, src: Src) -> bool {
    let regs = pre.registers;
    if dst == Src::Reg(Register::HL) && src is I8 {
        let v = src->I8_0;
        &&& post_bus == pre_bus
        &&& post == (Cpu {
            registers: (Registers {
                pc: pc_next,
                f: spec_pack_flags(false, false, (regs.sp % 0x1000) + ((v as u16) % 0x1000)
                    >= 0x1000, regs.sp + v >= 0x10000),
                ..regs.spec_set16(Register::HL, ((regs.sp + v) % 0x10000) as u16)
            }),
            ..pre
        })
    } else if dst is Reg {
        &&& post_bus == pre_bus
        &&& post == (Cpu {
            registers: (Registers {
                pc: pc_next,
                ..regs.spec_set16(dst->Reg_0, spec_src16(regs, src))
            }),
            ..pre
        })
    } else {
        &&& post == (Cpu { registers: (Registers { pc: pc_next, ..regs }), ..pre })
        &&& post_bus.wf()
        &&& write2_rel(pre_bus, post_bus, dst->A16_0, (dst->A16_0 + 1) as u16, spec_src16(
            regs, src))
    }
}

/// Opcodes that may write to memory; every other opcode leaves the bus
/// untouched.
pub open spec fn writes_mem(op: Opcode) -> bool {
    match op {
        Opcode::LD8(dst, _) => !(dst is Reg),
        Opcode::LD8I(dst, _) => !(dst is Reg),
        Opcode::LD8D(dst, _) => !(dst is Reg),
        Opcode::LD16(dst, _) => !(dst is Reg),
        Opcode::INC8(dst) | Opcode::DEC8(dst) => !(dst is Reg),
        Opcode::RLC(dst) | Opcode::RL(dst) | Opcode::RRC(dst) | Opcode::RR(dst)
        | Opcode::SLA(dst) | Opcode::SRA(dst) | Opcode::SRL(dst) | Opcode::SWAP(dst) => !(dst
            is Reg),
        Opcode::SET(_, dst) | Opcode::RES(_, dst) => !(dst is Reg),
        Opcode::PUSH(_) => true,
        Opcode::CALL(_, _) => true,
        Opcode::RST(_) => true,
        _ => false,
    }
}

impl Cpu {
    /// A fresh CPU; on colour hardware the accumulator powers up holding
    /// 0x11 so boot code can tell the revisions apart.
    pub fn new(mode: Mode) -> (r: Cpu)
        ensures
            r.registers == (Registers {
                a: if mode is CGB {
                    0x11 as u8
                } else {
                    0
                },
                b: 0,
                c: 0,
                d: 0,
                e: 0,
                f: 0,
                h: 0,
                l: 0,
                sp: 0,
                pc: 0,
            }),
            !r.ime,
            !r.halted,
    {
        let mut registers = Registers::new();
        match mode {
            Mode::CGB => {
                registers.set8(Register::A, 0x11);
            }
            _ => {}
        }
        Cpu { registers, ime: false, halted: false, debug: false }
    }

    /// Start execution at the cartridge entry point, skipping the boot
    /// ROM.
    pub fn skip_boot_rom(&mut self)
        ensures
            *final(self) == (Cpu {
                registers: (Registers { pc: 0x100, ..old(self).registers }),
                ..*old(self)
            }),
    {
        self.registers.set16(Register::PC, 0x100);
    }

    /// Turn on instruction tracing (a no-op in this build).
    pub fn enable_debug(&mut self)
        ensures
            *final(self) == (Cpu { debug: true, ..*old(self) }),
    {
        self.debug = true;
    }

    /// Execute one instruction; see `eval`.
    pub fn step(&mut self, memory_bus: &mut MemoryBus) -> (cycles: u32)
        requires
            eval_safe(*old(self), *old(memory_bus)),
        ensures
            eval_rel(*old(self), *old(memory_bus), *final(self), *final(memory_bus), cycles),
    {
        self.eval(memory_bus)
    }

    /// Fetch, decode and execute the instruction at the program counter,
    /// returning the machine cycles consumed. The postconditions spell out
    /// the conjuncts of `eval_rel`.
    pub fn eval(&mut self, memory_bus: &mut MemoryBus) -> (cycles: u32)
        requires
            eval_safe(*old(self), *old(memory_bus)),
        ensures
            final(memory_bus).wf(),
            final(memory_bus).map == old(memory_bus).map,
            (!spec_decoded(*old(self), *old(memory_bus)).is_control() ==> cycles == spec_decoded(*old(self), *old(memory_bus)).cycles && final(self).registers.pc == pc_after(*old(self), *old(memory_bus))),
            (spec_decoded(*old(self), *old(memory_bus)).opcode matches Opcode::JP(fc, t) ==> if spec_cond(fc, old(self).registers) {
                    cycles == spec_decoded(*old(self), *old(memory_bus)).cycles && *final(self) == (Cpu {
                        registers: (Registers { pc: spec_src16(old(self).registers, t), ..old(self).registers }),
                        ..*old(self)
                    }) && *final(memory_bus) == *old(memory_bus)
                } else {
                    cycles == spec_decoded(*old(self), *old(memory_bus)).cycles - 1 && *final(self) == (Cpu {
                        registers: (Registers { pc: pc_after(*old(self), *old(memory_bus)), ..old(self).registers }),
                        ..*old(self)
                    }) && *final(memory_bus) == *old(memory_bus)
                }),
            (spec_decoded(*old(self), *old(memory_bus)).opcode matches Opcode::JR(fc, o) ==> if spec_cond(fc, old(self).registers) {
                    cycles == spec_decoded(*old(self), *old(memory_bus)).cycles && *final(self) == (Cpu {
                        registers: (Registers { pc: ((old(self).registers.pc + o + spec_decoded(*old(self), *old(memory_bus)).n_bytes) % 0x10000) as u16, ..old(self).registers }),
                        ..*old(self)
                    }) && *final(memory_bus) == *old(memory_bus)
                } else {
                    cycles == spec_decoded(*old(self), *old(memory_bus)).cycles - 1 && *final(self) == (Cpu {
                        registers: (Registers { pc: pc_after(*old(self), *old(memory_bus)), ..old(self).registers }),
                        ..*old(self)
                    }) && *final(memory_bus) == *old(memory_bus)
                }),
            (spec_decoded(*old(self), *old(memory_bus)).opcode matches Opcode::CALL(fc, a) ==> if spec_cond(fc, old(self).registers) {
                    cycles == spec_decoded(*old(self), *old(memory_bus)).cycles && *final(self) == (Cpu {
                        registers: (Registers { pc: a, sp: (old(self).registers.sp - 2) as u16, ..old(self).registers }),
                        ..*old(self)
                    }) && write2_rel(*old(memory_bus), *final(memory_bus), (old(self).registers.sp - 1) as u16, (old(self).registers.sp - 2) as u16,
                        ((old(self).registers.pc + spec_decoded(*old(self), *old(memory_bus)).n_bytes) % 0x10000) as u16)
                } else {
                    cycles == spec_decoded(*old(self), *old(memory_bus)).cycles - 3 && *final(self) == (Cpu {
                        registers: (Registers { pc: pc_after(*old(self), *old(memory_bus)), ..old(self).registers }),
                        ..*old(self)
                    }) && *final(memory_bus) == *old(memory_bus)
                }),
            (spec_decoded(*old(self), *old(memory_bus)).opcode matches Opcode::RST(a) ==> cycles == spec_decoded(*old(self), *old(memory_bus)).cycles && *final(self) == (Cpu {
                    registers: (Registers { pc: a as u16, sp: (old(self).registers.sp - 2) as u16, ..old(self).registers }),
                    ..*old(self)
                }) && write2_rel(*old(memory_bus), *final(memory_bus), (old(self).registers.sp - 1) as u16, (old(self).registers.sp - 2) as u16,
                    ((old(self).registers.pc + spec_decoded(*old(self), *old(memory_bus)).n_bytes) % 0x10000) as u16)),
            (spec_decoded(*old(self), *old(memory_bus)).opcode matches Opcode::RET(fc) ==> if spec_cond(fc, old(self).registers) {
                    cycles == spec_decoded(*old(self), *old(memory_bus)).cycles && *final(self) == (Cpu {
                        registers: (Registers {
                            pc: spec_combine16(old(memory_bus).read8((old(self).registers.sp + 1) as u16), old(memory_bus).read8(old(self).registers.sp)),
                            sp: (old(self).registers.sp + 2) as u16,
                            ..old(self).registers
                        }),
                        ..*old(self)
                    }) && *final(memory_bus) == *old(memory_bus)
                } else {
                    cycles == spec_decoded(*old(self), *old(memory_bus)).cycles - 3 && *final(self) == (Cpu {
                        registers: (Registers { pc: pc_after(*old(self), *old(memory_bus)), ..old(self).registers }),
                        ..*old(self)
                    }) && *final(memory_bus) == *old(memory_bus)
                }),
            (spec_decoded(*old(self), *old(memory_bus)).opcode is RETI ==> cycles == spec_decoded(*old(self), *old(memory_bus)).cycles && *final(self) == (Cpu {
                    registers: (Registers {
                        pc: spec_combine16(old(memory_bus).read8((old(self).registers.sp + 1) as u16), old(memory_bus).read8(old(self).registers.sp)),
                        sp: (old(self).registers.sp + 2) as u16,
                        ..old(self).registers
                    }),
                    ime: true,
                    ..*old(self)
                }) && *final(memory_bus) == *old(memory_bus)),
            (spec_decoded(*old(self), *old(memory_bus)).opcode matches Opcode::PUSH(rr) ==> *final(self) == (Cpu {
                    registers: (Registers { pc: pc_after(*old(self), *old(memory_bus)), sp: (old(self).registers.sp - 2) as u16, ..old(self).registers }),
                    ..*old(self)
                }) && write2_rel(*old(memory_bus), *final(memory_bus), (old(self).registers.sp - 2) as u16, (old(self).registers.sp - 1) as u16,
                    old(self).registers.spec_get16(rr))),
            (spec_decoded(*old(self), *old(memory_bus)).opcode matches Opcode::POP(rr) ==> *final(memory_bus) == *old(memory_bus) && *final(self) == (Cpu {
                    registers: (Registers {
                        pc: pc_after(*old(self), *old(memory_bus)),
                        ..old(self).registers.spec_set16(Register::SP, (old(self).registers.sp + 2) as u16).spec_set16(rr,
                        spec_combine16(old(memory_bus).read8(old(self).registers.sp), old(memory_bus).read8((old(self).registers.sp + 1) as u16)))
                    }),
                    ..*old(self)
                })),
            (spec_decoded(*old(self), *old(memory_bus)).opcode matches Opcode::ADD8(s) ==> *final(memory_bus) == *old(memory_bus) && alu_a_rel(*old(self), *old(memory_bus),
                    *final(self), pc_after(*old(self), *old(memory_bus)), alu::spec_add8(old(self).registers.a, spec_src8(old(self).registers, *old(memory_bus), s), 0))),
            (spec_decoded(*old(self), *old(memory_bus)).opcode matches Opcode::ADC8(s) ==> *final(memory_bus) == *old(memory_bus) && alu_a_rel(*old(self), *old(memory_bus),
                    *final(self), pc_after(*old(self), *old(memory_bus)), alu::spec_add8(old(self).registers.a, spec_src8(old(self).registers, *old(memory_bus), s), old(self).registers.spec_cy()))),
            (spec_decoded(*old(self), *old(memory_bus)).opcode matches Opcode::SUB8(s) ==> *final(memory_bus) == *old(memory_bus) && alu_a_rel(*old(self), *old(memory_bus),
                    *final(self), pc_after(*old(self), *old(memory_bus)), alu::spec_sub8(old(self).registers.a, spec_src8(old(self).registers, *old(memory_bus), s), 0))),
            (spec_decoded(*old(self), *old(memory_bus)).opcode matches Opcode::SBC8(s) ==> *final(memory_bus) == *old(memory_bus) && alu_a_rel(*old(self), *old(memory_bus),
                    *final(self), pc_after(*old(self), *old(memory_bus)), alu::spec_sub8(old(self).registers.a, spec_src8(old(self).registers, *old(memory_bus), s), old(self).registers.spec_cy()))),
            (spec_decoded(*old(self), *old(memory_bus)).opcode matches Opcode::CP(s) ==> *final(memory_bus) == *old(memory_bus) && *final(self) == (Cpu {
                    registers: (Registers {
                        pc: pc_after(*old(self), *old(memory_bus)),
                        f: flags_of(alu::spec_sub8(old(self).registers.a, spec_src8(old(self).registers, *old(memory_bus), s), 0)),
                        ..old(self).registers
                    }),
                    ..*old(self)
                })),
            (spec_decoded(*old(self), *old(memory_bus)).opcode matches Opcode::AND(s) ==> *final(memory_bus) == *old(memory_bus) && *final(self) == (Cpu {
                    registers: (Registers {
                        pc: pc_after(*old(self), *old(memory_bus)),
                        a: old(self).registers.a & spec_src8(old(self).registers, *old(memory_bus), s),
                        f: spec_pack_flags(old(self).registers.a & spec_src8(old(self).registers, *old(memory_bus), s) == 0, false, true, false),
                        ..old(self).registers
                    }),
                    ..*old(self)
                })),
            (spec_decoded(*old(self), *old(memory_bus)).opcode matches Opcode::OR(s) ==> *final(memory_bus) == *old(memory_bus) && *final(self) == (Cpu {
                    registers: (Registers {
                        pc: pc_after(*old(self), *old(memory_bus)),
                        a: old(self).registers.a | spec_src8(old(self).registers, *old(memory_bus), s),
                        f: spec_pack_flags(old(self).registers.a | spec_src8(old(self).registers, *old(memory_bus), s) == 0, false, false, false),
                        ..old(self).registers
                    }),
                    ..*old(self)
                })),
            (spec_decoded(*old(self), *old(memory_bus)).opcode matches Opcode::XOR(s) ==> *final(memory_bus) == *old(memory_bus) && *final(self) == (Cpu {
                    registers: (Registers {
                        pc: pc_after(*old(self), *old(memory_bus)),
                        a: old(self).registers.a ^ spec_src8(old(self).registers, *old(memory_bus), s),
                        f: spec_pack_flags(old(self).registers.a ^ spec_src8(old(self).registers, *old(memory_bus), s) == 0, false, false, false),
                        ..old(self).registers
                    }),
                    ..*old(self)
                })),
            (spec_decoded(*old(self), *old(memory_bus)).opcode is DI ==> *final(self) == (Cpu {
                    registers: (Registers { pc: pc_after(*old(self), *old(memory_bus)), ..old(self).registers }),
                    ime: false,
                    ..*old(self)
                }) && *final(memory_bus) == *old(memory_bus)),
            (spec_decoded(*old(self), *old(memory_bus)).opcode is EI ==> *final(self) == (Cpu {
                    registers: (Registers { pc: pc_after(*old(self), *old(memory_bus)), ..old(self).registers }),
                    ime: true,
                    ..*old(self)
                }) && *final(memory_bus) == *old(memory_bus)),
            (spec_decoded(*old(self), *old(memory_bus)).opcode is NOP ==> *final(self) == (Cpu {
                    registers: (Registers { pc: pc_after(*old(self), *old(memory_bus)), ..old(self).registers }),
                    ..*old(self)
                }) && *final(memory_bus) == *old(memory_bus)),
            (spec_decoded(*old(self), *old(memory_bus)).opcode is HALT || spec_decoded(*old(self), *old(memory_bus)).opcode is STOP ==> *final(self) == (Cpu {
                    registers: (Registers { pc: pc_after(*old(self), *old(memory_bus)), ..old(self).registers }),
                    halted: true,
                    ..*old(self)
                }) && *final(memory_bus) == *old(memory_bus)),
            (spec_decoded(*old(self), *old(memory_bus)).opcode matches Opcode::INC16(rr) ==> *final(memory_bus) == *old(memory_bus) && *final(self) == (Cpu {
                    registers: (Registers {
                        pc: pc_after(*old(self), *old(memory_bus)),
                        ..old(self).registers.spec_set16(rr, ((old(self).registers.spec_get16(rr) + 1) % 0x10000) as u16)
                    }),
                    ..*old(self)
                })),
            (spec_decoded(*old(self), *old(memory_bus)).opcode matches Opcode::DEC16(rr) ==> *final(memory_bus) == *old(memory_bus) && *final(self) == (Cpu {
                    registers: (Registers {
                        pc: pc_after(*old(self), *old(memory_bus)),
                        ..old(self).registers.spec_set16(rr, ((old(self).registers.spec_get16(rr) - 1) % 0x10000) as u16)
                    }),
                    ..*old(self)
                })),
            (spec_decoded(*old(self), *old(memory_bus)).opcode is CPL ==> *final(memory_bus) == *old(memory_bus) && *final(self) == (Cpu {
                    registers: (Registers {
                        pc: pc_after(*old(self), *old(memory_bus)),
                        a: !old(self).registers.a,
                        f: spec_pack_flags(old(self).registers.spec_z() == 1, true, true, old(self).registers.spec_cy() == 1),
                        ..old(self).registers
                    }),
                    ..*old(self)
                })),
            (spec_decoded(*old(self), *old(memory_bus)).opcode is SCF ==> *final(memory_bus) == *old(memory_bus) && *final(self) == (Cpu {
                    registers: (Registers {
                        pc: pc_after(*old(self), *old(memory_bus)),
                        f: spec_pack_flags(old(self).registers.spec_z() == 1, false, false, true),
                        ..old(self).registers
                    }),
                    ..*old(self)
                })),
            (spec_decoded(*old(self), *old(memory_bus)).opcode is CCF ==> *final(memory_bus) == *old(memory_bus) && *final(self) == (Cpu {
                    registers: (Registers {
                        pc: pc_after(*old(self), *old(memory_bus)),
                        f: spec_pack_flags(old(self).registers.spec_z() == 1, old(self).registers.spec_n() == 1, old(self).registers.spec_h() == 1, old(self).registers.spec_cy() == 0),
                        ..old(self).registers
                    }),
                    ..*old(self)
                })),
            (spec_decoded(*old(self), *old(memory_bus)).opcode matches Opcode::LD8(dst, src) ==> ld8_rel(*old(self), *old(memory_bus), *final(self), *final(memory_bus), pc_after(*old(self), *old(memory_bus)), dst, src, 0)),
            (spec_decoded(*old(self), *old(memory_bus)).opcode matches Opcode::LD8I(dst, src) ==> ld8_rel(*old(self), *old(memory_bus), *final(self), *final(memory_bus), pc_after(*old(self), *old(memory_bus)), dst, src, 1)),
            (spec_decoded(*old(self), *old(memory_bus)).opcode matches Opcode::LD8D(dst, src) ==> ld8_rel(*old(self), *old(memory_bus), *final(self), *final(memory_bus), pc_after(*old(self), *old(memory_bus)), dst, src, -1)),
            (spec_decoded(*old(self), *old(memory_bus)).opcode matches Opcode::INC8(dst) ==> incdec8_rel(*old(self), *old(memory_bus), *final(self), *final(memory_bus),
                    pc_after(*old(self), *old(memory_bus)), dst, ((spec_src8(old(self).registers, *old(memory_bus), dst) + 1) % 256) as u8,
                    (spec_src8(old(self).registers, *old(memory_bus), dst) + 1) % 256 == 0, false, spec_src8(old(self).registers, *old(memory_bus), dst) % 16 == 15)),
            (spec_decoded(*old(self), *old(memory_bus)).opcode matches Opcode::DEC8(dst) ==> incdec8_rel(*old(self), *old(memory_bus), *final(self), *final(memory_bus),
                    pc_after(*old(self), *old(memory_bus)), dst, ((spec_src8(old(self).registers, *old(memory_bus), dst) - 1) % 256) as u8,
                    spec_src8(old(self).registers, *old(memory_bus), dst) == 1, true, spec_src8(old(self).registers, *old(memory_bus), dst) % 16 == 0)),
            (spec_decoded(*old(self), *old(memory_bus)).opcode matches Opcode::LD16(dst, src) ==> ld16_rel(*old(self), *old(memory_bus), *final(self), *final(memory_bus), pc_after(*old(self), *old(memory_bus)), dst, src)),
            (opcode_is_rotbit_spec(spec_decoded(*old(self), *old(memory_bus)).opcode) ==> rotbit_rel(*old(self), *old(memory_bus), *final(self), *final(memory_bus), pc_after(*old(self), *old(memory_bus)), spec_decoded(*old(self), *old(memory_bus)).opcode)),
            (spec_decoded(*old(self), *old(memory_bus)).opcode matches Opcode::ADD16(rr, src) ==> if src is I8 {
                    *final(memory_bus) == *old(memory_bus) && *final(self) == (Cpu {
                        registers: (Registers {
                            pc: pc_after(*old(self), *old(memory_bus)),
                            f: spec_pack_flags(false, false, (old(self).registers.spec_get16(rr) % 0x1000) + ((src->I8_0 as u16) % 0x1000) >= 0x1000, old(self).registers.spec_get16(rr) + src->I8_0 >= 0x10000),
                            ..old(self).registers.spec_set16(rr, ((old(self).registers.spec_get16(rr) + src->I8_0) % 0x10000) as u16)
                        }),
                        ..*old(self)
                    })
                } else {
                    *final(memory_bus) == *old(memory_bus) && *final(self) == (Cpu {
                        registers: (Registers {
                            pc: pc_after(*old(self), *old(memory_bus)),
                            f: spec_pack_flags(old(self).registers.spec_z() == 1, false, (old(self).registers.spec_get16(rr) % 0x1000) + (spec_src16(old(self).registers, src) % 0x1000) >= 0x1000, old(self).registers.spec_get16(rr) + spec_src16(old(self).registers, src) >= 0x10000),
                            ..old(self).registers.spec_set16(rr, ((old(self).registers.spec_get16(rr) + spec_src16(old(self).registers, src)) % 0x10000) as u16)
                        }),
                        ..*old(self)
                    })
                }),
            (spec_decoded(*old(self), *old(memory_bus)).opcode is DAA ==> *final(memory_bus) == *old(memory_bus) && *final(self) == (Cpu {
                    registers: (Registers {
                        pc: pc_after(*old(self), *old(memory_bus)),
                        a: spec_daa_result(old(self).registers).0,
                        f: spec_daa_result(old(self).registers).1,
                        ..old(self).registers
                    }),
                    ..*old(self)
                })),
            (spec_decoded(*old(self), *old(memory_bus)).opcode is RLCA ==> *final(memory_bus) == *old(memory_bus) && *final(self) == (Cpu {
                    registers: (Registers {
                        pc: pc_after(*old(self), *old(memory_bus)),
                        a: (old(self).registers.a << 1) | crate::bits::spec_bit(old(self).registers.a, 7),
                        f: spec_pack_flags(false, false, false, crate::bits::spec_bit(old(self).registers.a, 7) == 1),
                        ..old(self).registers
                    }),
                    ..*old(self)
                })),
            (spec_decoded(*old(self), *old(memory_bus)).opcode is RLA ==> *final(memory_bus) == *old(memory_bus) && *final(self) == (Cpu {
                    registers: (Registers {
                        pc: pc_after(*old(self), *old(memory_bus)),
                        a: (old(self).registers.a << 1) | old(self).registers.spec_cy(),
                        f: spec_pack_flags(false, false, false, crate::bits::spec_bit(old(self).registers.a, 7) == 1),
                        ..old(self).registers
                    }),
                    ..*old(self)
                })),
            (spec_decoded(*old(self), *old(memory_bus)).opcode is RRCA ==> *final(memory_bus) == *old(memory_bus) && *final(self) == (Cpu {
                    registers: (Registers {
                        pc: pc_after(*old(self), *old(memory_bus)),
                        a: (old(self).registers.a >> 1) | ((old(self).registers.a & 1) << 7),
                        f: spec_pack_flags(false, false, false, old(self).registers.a & 1 == 1),
                        ..old(self).registers
                    }),
                    ..*old(self)
                })),
            (spec_decoded(*old(self), *old(memory_bus)).opcode is RRA ==> *final(memory_bus) == *old(memory_bus) && *final(self) == (Cpu {
                    registers: (Registers {
                        pc: pc_after(*old(self), *old(memory_bus)),
                        a: (old(self).registers.a >> 1) | (old(self).registers.spec_cy() << 7),
                        f: spec_pack_flags(false, false, false, old(self).registers.a & 1 == 1),
                        ..old(self).registers
                    }),
                    ..*old(self)
                })),
            (!writes_mem(spec_decoded(*old(self), *old(memory_bus)).opcode) ==> *final(memory_bus) == *old(memory_bus)),
    {
        let instr = self.disassemble(memory_bus);
        if is_control_exec(&instr) {
            self.eval_control(instr, memory_bus)
        } else {
            self.eval_data(instr, memory_bus)
        }
    }

    /// Execute one control-flow instruction: jumps, calls, returns and
    /// resets, with their taken/untaken cycle penalties.
    #[verifier::rlimit(100)]
    #[verifier::spinoff_prover]
    fn eval_control(&mut self, instr: Instr, memory_bus: &mut MemoryBus) -> (cycles: u32)
        requires
            old(memory_bus).wf(),
            instr == spec_decoded(*old(self), *old(memory_bus)),
            instr.wf(),
            eval_safe(*old(self), *old(memory_bus)),
            instr.is_control(),
        ensures
            final(memory_bus).wf(),
            final(memory_bus).map == old(memory_bus).map,
            (instr.opcode matches Opcode::JP(fc, t) ==> if spec_cond(fc, old(self).registers) {
                    cycles == instr.cycles && *final(self) == (Cpu {
                        registers: (Registers { pc: spec_src16(old(self).registers, t), ..old(self).registers }),
                        ..*old(self)
                    }) && *final(memory_bus) == *old(memory_bus)
                } else {
                    cycles == instr.cycles - 1 && *final(self) == (Cpu {
                        registers: (Registers { pc: (((old(self).registers.pc + instr.n_bytes) % 0x10000) as u16), ..old(self).registers }),
                        ..*old(self)
                    }) && *final(memory_bus) == *old(memory_bus)
                }),
            (instr.opcode matches Opcode::JR(fc, o) ==> if spec_cond(fc, old(self).registers) {
                    cycles == instr.cycles && *final(self) == (Cpu {
                        registers: (Registers { pc: ((old(self).registers.pc + o + instr.n_bytes) % 0x10000) as u16, ..old(self).registers }),
                        ..*old(self)
                    }) && *final(memory_bus) == *old(memory_bus)
                } else {
                    cycles == instr.cycles - 1 && *final(self) == (Cpu {
                        registers: (Registers { pc: (((old(self).registers.pc + instr.n_bytes) % 0x10000) as u16), ..old(self).registers }),
                        ..*old(self)
                    }) && *final(memory_bus) == *old(memory_bus)
                }),
            (instr.opcode matches Opcode::CALL(fc, a) ==> if spec_cond(fc, old(self).registers) {
                    cycles == instr.cycles && *final(self) == (Cpu {
                        registers: (Registers { pc: a, sp: (old(self).registers.sp - 2) as u16, ..old(self).registers }),
                        ..*old(self)
                    }) && write2_rel(*old(memory_bus), *final(memory_bus), (old(self).registers.sp - 1) as u16, (old(self).registers.sp - 2) as u16,
                        ((old(self).registers.pc + instr.n_bytes) % 0x10000) as u16)
                } else {
                    cycles == instr.cycles - 3 && *final(self) == (Cpu {
                        registers: (Registers { pc: (((old(self).registers.pc + instr.n_bytes) % 0x10000) as u16), ..old(self).registers }),
                        ..*old(self)
                    }) && *final(memory_bus) == *old(memory_bus)
                }),
            (instr.opcode matches Opcode::RST(a) ==> cycles == instr.cycles && *final(self) == (Cpu {
                    registers: (Registers { pc: a as u16, sp: (old(self).registers.sp - 2) as u16, ..old(self).registers }),
                    ..*old(self)
                }) && write2_rel(*old(memory_bus), *final(memory_bus), (old(self).registers.sp - 1) as u16, (old(self).registers.sp - 2) as u16,
                    ((old(self).registers.pc + instr.n_bytes) % 0x10000) as u16)),
            (instr.opcode matches Opcode::RET(fc) ==> if spec_cond(fc, old(self).registers) {
                    cycles == instr.cycles && *final(self) == (Cpu {
                        registers: (Registers {
                            pc: spec_combine16(old(memory_bus).read8((old(self).registers.sp + 1) as u16), old(memory_bus).read8(old(self).registers.sp)),
                            sp: (old(self).registers.sp + 2) as u16,
                            ..old(self).registers
                        }),
                        ..*old(self)
                    }) && *final(memory_bus) == *old(memory_bus)
                } else {
                    cycles == instr.cycles - 3 && *final(self) == (Cpu {
                        registers: (Registers { pc: (((old(self).registers.pc + instr.n_bytes) % 0x10000) as u16), ..old(self).registers }),
                        ..*old(self)
                    }) && *final(memory_bus) == *old(memory_bus)
                }),
            (instr.opcode is RETI ==> cycles == instr.cycles && *final(self) == (Cpu {
                    registers: (Registers {
                        pc: spec_combine16(old(memory_bus).read8((old(self).registers.sp + 1) as u16), old(memory_bus).read8(old(self).registers.sp)),
                        sp: (old(self).registers.sp + 2) as u16,
                        ..old(self).registers
                    }),
                    ime: true,
                    ..*old(self)
                }) && *final(memory_bus) == *old(memory_bus)),
            (!writes_mem(instr.opcode) ==> *final(memory_bus) == *old(memory_bus)),
    {
        let mut cycles = instr.cycles;
        match instr.opcode {
            Opcode::JP(fc, addr) => {
                if self.flag_match(fc) {
                    let r = self.get_u16(addr);
                    self.registers.set16(Register::PC, r);
                } else {
                    cycles = cycles - 1;
                    self.registers.inc_pc(instr.n_bytes);
                }
            }
            Opcode::JR(fc, offset) => {
                if self.flag_match(fc) {
                    let pc = self.registers.get16(Register::PC);
                    let out = alu::add16_signed(pc, offset);
                    self.registers.set16(Register::PC, out.0);
                    self.registers.inc_pc(instr.n_bytes);
                    proof {
                        lemma_mod_add_compose(old(self).registers.pc + offset,
                            instr.n_bytes as int);
                    }
                } else {
                    cycles = cycles - 1;
                    self.registers.inc_pc(instr.n_bytes);
                }
            }
            Opcode::CALL(fc, addr) => {
                if self.flag_match(fc) {
                    self.push_pc(instr.n_bytes, memory_bus);
                    self.registers.set16(Register::PC, addr);
                    proof {
                        lemma_small_mod(old(self).registers.pc + instr.n_bytes as int);
                    }
                } else {
                    cycles = cycles - 3;
                    self.registers.inc_pc(instr.n_bytes);
                }
            }
            Opcode::RET(fc) => {
                if self.flag_match(fc) {
                    self.pop_pc(memory_bus);
                } else {
                    cycles = cycles - 3;
                    self.registers.inc_pc(instr.n_bytes);
                }
            }
            Opcode::RETI => {
                self.ime = true;
                self.pop_pc(memory_bus);
            }
            Opcode::RST(_) => {
                self.push_pc(instr.n_bytes, memory_bus);
                let a = match instr.opcode {
                    Opcode::RST(a) => a,
                    _ => 0,
                };
                self.registers.set16(Register::PC, a as u16);
                proof {
                    lemma_small_mod(old(self).registers.pc + instr.n_bytes as int);
                }
            }
            _ => {
                proof {
                    assert(false);
                }
            }
        }
        cycles
    }

    /// Execute one non-control instruction: loads, stack data, arithmetic,
    /// rotates, bit tests and the interrupt latch, then advance the
    /// program counter by the instruction length.
    #[verifier::rlimit(100)]
    #[verifier::spinoff_prover]
    fn eval_data(&mut self, instr: Instr, memory_bus: &mut MemoryBus) -> (cycles: u32)
        requires
            old(memory_bus).wf(),
            instr == spec_decoded(*old(self), *old(memory_bus)),
            instr.wf(),
            eval_safe(*old(self), *old(memory_bus)),
            !instr.is_control(),
        ensures
            final(memory_bus).wf(),
            final(memory_bus).map == old(memory_bus).map,
            (!instr.is_control() ==> cycles == instr.cycles && final(self).registers.pc == (((old(self).registers.pc + instr.n_bytes) % 0x10000) as u16)),
            (instr.opcode matches Opcode::PUSH(rr) ==> *final(self) == (Cpu {
                    registers: (Registers { pc: (((old(self).registers.pc + instr.n_bytes) % 0x10000) as u16), sp: (old(self).registers.sp - 2) as u16, ..old(self).registers }),
                    ..*old(self)
                }) && write2_rel(*old(memory_bus), *final(memory_bus), (old(self).registers.sp - 2) as u16, (old(self).registers.sp - 1) as u16,
                    old(self).registers.spec_get16(rr))),
            (instr.opcode matches Opcode::POP(rr) ==> *final(memory_bus) == *old(memory_bus) && *final(self) == (Cpu {
                    registers: (Registers {
                        pc: (((old(self).registers.pc + instr.n_bytes) % 0x10000) as u16),
                        ..old(self).registers.spec_set16(Register::SP, (old(self).registers.sp + 2) as u16).spec_set16(rr,
                        spec_combine16(old(memory_bus).read8(old(self).registers.sp), old(memory_bus).read8((old(self).registers.sp + 1) as u16)))
                    }),
                    ..*old(self)
                })),
            (instr.opcode matches Opcode::ADD8(s) ==> *final(memory_bus) == *old(memory_bus) && alu_a_rel(*old(self), *old(memory_bus),
                    *final(self), (((old(self).registers.pc + instr.n_bytes) % 0x10000) as u16), alu::spec_add8(old(self).registers.a, spec_src8(old(self).registers, *old(memory_bus), s), 0))),
            (instr.opcode matches Opcode::ADC8(s) ==> *final(memory_bus) == *old(memory_bus) && alu_a_rel(*old(self), *old(memory_bus),
                    *final(self), (((old(self).registers.pc + instr.n_bytes) % 0x10000) as u16), alu::spec_add8(old(self).registers.a, spec_src8(old(self).registers, *old(memory_bus), s), old(self).registers.spec_cy()))),
            (instr.opcode matches Opcode::SUB8(s) ==> *final(memory_bus) == *old(memory_bus) && alu_a_rel(*old(self), *old(memory_bus),
                    *final(self), (((old(self).registers.pc + instr.n_bytes) % 0x10000) as u16), alu::spec_sub8(old(self).registers.a, spec_src8(old(self).registers, *old(memory_bus), s), 0))),
            (instr.opcode matches Opcode::SBC8(s) ==> *final(memory_bus) == *old(memory_bus) && alu_a_rel(*old(self), *old(memory_bus),
                    *final(self), (((old(self).registers.pc + instr.n_bytes) % 0x10000) as u16), alu::spec_sub8(old(self).registers.a, spec_src8(old(self).registers, *old(memory_bus), s), old(self).registers.spec_cy()))),
            (instr.opcode matches Opcode::CP(s) ==> *final(memory_bus) == *old(memory_bus) && *final(self) == (Cpu {
                    registers: (Registers {
                        pc: (((old(self).registers.pc + instr.n_bytes) % 0x10000) as u16),
                        f: flags_of(alu::spec_sub8(old(self).registers.a, spec_src8(old(self).registers, *old(memory_bus), s), 0)),
                        ..old(self).registers
                    }),
                    ..*old(self)
                })),
            (instr.opcode matches Opcode::AND(s) ==> *final(memory_bus) == *old(memory_bus) && *final(self) == (Cpu {
                    registers: (Registers {
                        pc: (((old(self).registers.pc + instr.n_bytes) % 0x10000) as u16),
                        a: old(self).registers.a & spec_src8(old(self).registers, *old(memory_bus), s),
                        f: spec_pack_flags(old(self).registers.a & spec_src8(old(self).registers, *old(memory_bus), s) == 0, false, true, false),
                        ..old(self).registers
                    }),
                    ..*old(self)
                })),
            (instr.opcode matches Opcode::OR(s) ==> *final(memory_bus) == *old(memory_bus) && *final(self) == (Cpu {
                    registers: (Registers {
                        pc: (((old(self).registers.pc + instr.n_bytes) % 0x10000) as u16),
                        a: old(self).registers.a | spec_src8(old(self).registers, *old(memory_bus), s),
                        f: spec_pack_flags(old(self).registers.a | spec_src8(old(self).registers, *old(memory_bus), s) == 0, false, false, false),
                        ..old(self).registers
                    }),
                    ..*old(self)
                })),
            (instr.opcode matches Opcode::XOR(s) ==> *final(memory_bus) == *old(memory_bus) && *final(self) == (Cpu {
                    registers: (Registers {
                        pc: (((old(self).registers.pc + instr.n_bytes) % 0x10000) as u16),
                        a: old(self).registers.a ^ spec_src8(old(self).registers, *old(memory_bus), s),
                        f: spec_pack_flags(old(self).registers.a ^ spec_src8(old(self).registers, *old(memory_bus), s) == 0, false, false, false),
                        ..old(self).registers
                    }),
                    ..*old(self)
                })),
            (instr.opcode is DI ==> *final(self) == (Cpu {
                    registers: (Registers { pc: (((old(self).registers.pc + instr.n_bytes) % 0x10000) as u16), ..old(self).registers }),
                    ime: false,
                    ..*old(self)
                }) && *final(memory_bus) == *old(memory_bus)),
            (instr.opcode is EI ==> *final(self) == (Cpu {
                    registers: (Registers { pc: (((old(self).registers.pc + instr.n_bytes) % 0x10000) as u16), ..old(self).registers }),
                    ime: true,
                    ..*old(self)
                }) && *final(memory_bus) == *old(memory_bus)),
            (instr.opcode is NOP ==> *final(self) == (Cpu {
                    registers: (Registers { pc: (((old(self).registers.pc + instr.n_bytes) % 0x10000) as u16), ..old(self).registers }),
                    ..*old(self)
                }) && *final(memory_bus) == *old(memory_bus)),
            (instr.opcode is HALT || instr.opcode is STOP ==> *final(self) == (Cpu {
                    registers: (Registers { pc: (((old(self).registers.pc + instr.n_bytes) % 0x10000) as u16), ..old(self).registers }),
                    halted: true,
                    ..*old(self)
                }) && *final(memory_bus) == *old(memory_bus)),
            (instr.opcode matches Opcode::INC16(rr) ==> *final(memory_bus) == *old(memory_bus) && *final(self) == (Cpu {
                    registers: (Registers {
                        pc: (((old(self).registers.pc + instr.n_bytes) % 0x10000) as u16),
                        ..old(self).registers.spec_set16(rr, ((old(self).registers.spec_get16(rr) + 1) % 0x10000) as u16)
                    }),
                    ..*old(self)
                })),
            (instr.opcode matches Opcode::DEC16(rr) ==> *final(memory_bus) == *old(memory_bus) && *final(self) == (Cpu {
                    registers: (Registers {
                        pc: (((old(self).registers.pc + instr.n_bytes) % 0x10000) as u16),
                        ..old(self).registers.spec_set16(rr, ((old(self).registers.spec_get16(rr) - 1) % 0x10000) as u16)
                    }),
                    ..*old(self)
                })),
            (instr.opcode is CPL ==> *final(memory_bus) == *old(memory_bus) && *final(self) == (Cpu {
                    registers: (Registers {
                        pc: (((old(self).registers.pc + instr.n_bytes) % 0x10000) as u16),
                        a: !old(self).registers.a,
                        f: spec_pack_flags(old(self).registers.spec_z() == 1, true, true, old(self).registers.spec_cy() == 1),
                        ..old(self).registers
                    }),
                    ..*old(self)
                })),
            (instr.opcode is SCF ==> *final(memory_bus) == *old(memory_bus) && *final(self) == (Cpu {
                    registers: (Registers {
                        pc: (((old(self).registers.pc + instr.n_bytes) % 0x10000) as u16),
                        f: spec_pack_flags(old(self).registers.spec_z() == 1, false, false, true),
                        ..old(self).registers
                    }),
                    ..*old(self)
                })),
            (instr.opcode is CCF ==> *final(memory_bus) == *old(memory_bus) && *final(self) == (Cpu {
                    registers: (Registers {
                        pc: (((old(self).registers.pc + instr.n_bytes) % 0x10000) as u16),
                        f: spec_pack_flags(old(self).registers.spec_z() == 1, old(self).registers.spec_n() == 1, old(self).registers.spec_h() == 1, old(self).registers.spec_cy() == 0),
                        ..old(self).registers
                    }),
                    ..*old(self)
                })),
            (instr.opcode matches Opcode::INC8(dst) ==> incdec8_rel(*old(self), *old(memory_bus), *final(self), *final(memory_bus),
                    (((old(self).registers.pc + instr.n_bytes) % 0x10000) as u16), dst, ((spec_src8(old(self).registers, *old(memory_bus), dst) + 1) % 256) as u8,
                    (spec_src8(old(self).registers, *old(memory_bus), dst) + 1) % 256 == 0, false, spec_src8(old(self).registers, *old(memory_bus), dst) % 16 == 15)),
            (instr.opcode matches Opcode::DEC8(dst) ==> incdec8_rel(*old(self), *old(memory_bus), *final(self), *final(memory_bus),
                    (((old(self).registers.pc + instr.n_bytes) % 0x10000) as u16), dst, ((spec_src8(old(self).registers, *old(memory_bus), dst) - 1) % 256) as u8,
                    spec_src8(old(self).registers, *old(memory_bus), dst) == 1, true, spec_src8(old(self).registers, *old(memory_bus), dst) % 16 == 0)),
            (instr.opcode matches Opcode::LD16(dst, src) ==> ld16_rel(*old(self), *old(memory_bus), *final(self), *final(memory_bus), (((old(self).registers.pc + instr.n_bytes) % 0x10000) as u16), dst, src)),
            (opcode_is_rotbit_spec(instr.opcode) ==> rotbit_rel(*old(self), *old(memory_bus), *final(self), *final(memory_bus), (((old(self).registers.pc + instr.n_bytes) % 0x10000) as u16), instr.opcode)),
            (instr.opcode matches Opcode::ADD16(rr, src) ==> if src is I8 {
                    *final(memory_bus) == *old(memory_bus) && *final(self) == (Cpu {
                        registers: (Registers {
                            pc: (((old(self).registers.pc + instr.n_bytes) % 0x10000) as u16),
                            f: spec_pack_flags(false, false, (old(self).registers.spec_get16(rr) % 0x1000) + ((src->I8_0 as u16) % 0x1000) >= 0x1000, old(self).registers.spec_get16(rr) + src->I8_0 >= 0x10000),
                            ..old(self).registers.spec_set16(rr, ((old(self).registers.spec_get16(rr) + src->I8_0) % 0x10000) as u16)
                        }),
                        ..*old(self)
                    })
                } else {
                    *final(memory_bus) == *old(memory_bus) && *final(self) == (Cpu {
                        registers: (Registers {
                            pc: (((old(self).registers.pc + instr.n_bytes) % 0x10000) as u16),
                            f: spec_pack_flags(old(self).registers.spec_z() == 1, false, (old(self).registers.spec_get16(rr) % 0x1000) + (spec_src16(old(self).registers, src) % 0x1000) >= 0x1000, old(self).registers.spec_get16(rr) + spec_src16(old(self).registers, src) >= 0x10000),
                            ..old(self).registers.spec_set16(rr, ((old(self).registers.spec_get16(rr) + spec_src16(old(self).registers, src)) % 0x10000) as u16)
                        }),
                        ..*old(self)
                    })
                }),
            (instr.opcode matches Opcode::LD8(dst, src) ==> ld8_rel(*old(self), *old(memory_bus), *final(self), *final(memory_bus), (((old(self).registers.pc + instr.n_bytes) % 0x10000) as u16), dst, src, 0)),
            (instr.opcode matches Opcode::LD8I(dst, src) ==> ld8_rel(*old(self), *old(memory_bus), *final(self), *final(memory_bus), (((old(self).registers.pc + instr.n_bytes) % 0x10000) as u16), dst, src, 1)),
            (instr.opcode matches Opcode::LD8D(dst, src) ==> ld8_rel(*old(self), *old(memory_bus), *final(self), *final(memory_bus), (((old(self).registers.pc + instr.n_bytes) % 0x10000) as u16), dst, src, -1)),
            (instr.opcode is DAA ==> *final(memory_bus) == *old(memory_bus) && *final(self) == (Cpu {
                    registers: (Registers {
                        pc: (((old(self).registers.pc + instr.n_bytes) % 0x10000) as u16),
                        a: spec_daa_result(old(self).registers).0,
                        f: spec_daa_result(old(self).registers).1,
                        ..old(self).registers
                    }),
                    ..*old(self)
                })),
            (instr.opcode is RLCA ==> *final(memory_bus) == *old(memory_bus) && *final(self) == (Cpu {
                    registers: (Registers {
                        pc: (((old(self).registers.pc + instr.n_bytes) % 0x10000) as u16),
                        a: (old(self).registers.a << 1) | crate::bits::spec_bit(old(self).registers.a, 7),
                        f: spec_pack_flags(false, false, false, crate::bits::spec_bit(old(self).registers.a, 7) == 1),
                        ..old(self).registers
                    }),
                    ..*old(self)
                })),
            (instr.opcode is RLA ==> *final(memory_bus) == *old(memory_bus) && *final(self) == (Cpu {
                    registers: (Registers {
                        pc: (((old(self).registers.pc + instr.n_bytes) % 0x10000) as u16),
                        a: (old(self).registers.a << 1) | old(self).registers.spec_cy(),
                        f: spec_pack_flags(false, false, false, crate::bits::spec_bit(old(self).registers.a, 7) == 1),
                        ..old(self).registers
                    }),
                    ..*old(self)
                })),
            (instr.opcode is RRCA ==> *final(memory_bus) == *old(memory_bus) && *final(self) == (Cpu {
                    registers: (Registers {
                        pc: (((old(self).registers.pc + instr.n_bytes) % 0x10000) as u16),
                        a: (old(self).registers.a >> 1) | ((old(self).registers.a & 1) << 7),
                        f: spec_pack_flags(false, false, false, old(self).registers.a & 1 == 1),
                        ..old(self).registers
                    }),
                    ..*old(self)
                })),
            (instr.opcode is RRA ==> *final(memory_bus) == *old(memory_bus) && *final(self) == (Cpu {
                    registers: (Registers {
                        pc: (((old(self).registers.pc + instr.n_bytes) % 0x10000) as u16),
                        a: (old(self).registers.a >> 1) | (old(self).registers.spec_cy() << 7),
                        f: spec_pack_flags(false, false, false, old(self).registers.a & 1 == 1),
                        ..old(self).registers
                    }),
                    ..*old(self)
                })),
            (!writes_mem(instr.opcode) ==> *final(memory_bus) == *old(memory_bus)),
    {
        let mut cycles = instr.cycles;

        if opcode_is_alu8(&instr.opcode) {
            self.eval_alu(instr, memory_bus);
        } else if opcode_is_rotbit(&instr.opcode) {
            self.eval_rotbit(instr, memory_bus);
        } else if opcode_is_ld8(&instr.opcode) {
            self.eval_ld8(instr, memory_bus);
        } else if opcode_is_incdec(&instr.opcode) {
            self.eval_incdec(instr, memory_bus);
        } else if opcode_is_ld16(&instr.opcode) {
            self.eval_ld16(instr, memory_bus);
        } else {
        match instr.opcode {
            Opcode::NOP => {}
            Opcode::PUSH(reg) => {
                let sp = self.registers.get16(Register::SP);
                self.registers.set16(Register::SP, sp - 2);
                let v = self.registers.get16(reg);
                memory_bus.set16(sp - 2, v);
            }
            Opcode::POP(reg) => {
                let sp = self.registers.get16(Register::SP);
                self.registers.set16(Register::SP, sp + 2);
                let v = memory_bus.get16(sp);
                self.registers.set16(reg, v);
            }
            Opcode::ADD16(reg, Src::I8(v)) => {
                let a = self.registers.get16(reg);
                let out = alu::add16_signed(a, v);
                self.registers.set16(reg, out.0);
                self.registers.set_flags(false, false, out.1, out.2);
            }
            Opcode::ADD16(reg, src) => {
                let a = self.registers.get16(reg);
                let b = self.get_u16(src);
                let out = alu::add16(a, b);
                let z = self.registers.z_flag();
                self.registers.set16(reg, out.0);
                self.registers.set_flags(z == 1, false, out.1, out.2);
            }
            Opcode::INC16(reg) => {
                let v = self.registers.get16(reg);
                self.registers.set16(reg, wrapping_add16(v, 1));
            }
            Opcode::DEC16(reg) => {
                let v = self.registers.get16(reg);
                self.registers.set16(reg, wrapping_sub16(v, 1));
            }
            Opcode::RLCA => {
                let a = self.registers.get8(Register::A);
                let b7 = crate::bits::bit(a, 7);
                self.registers.set8(Register::A, (a << 1) | b7);
                self.registers.set_flags(false, false, false, b7 == 1);
            }
            Opcode::RLA => {
                let a = self.registers.get8(Register::A);
                let b7 = crate::bits::bit(a, 7);
                let cy = self.registers.cy_flag();
                self.registers.set8(Register::A, (a << 1) | cy);
                self.registers.set_flags(false, false, false, b7 == 1);
            }
            Opcode::RRCA => {
                let a = self.registers.get8(Register::A);
                let b0 = a & 1;
                self.registers.set8(Register::A, (a >> 1) | (b0 << 7));
                self.registers.set_flags(false, false, false, b0 == 1);
            }
            Opcode::RRA => {
                let a = self.registers.get8(Register::A);
                let b0 = a & 1;
                let cy = self.registers.cy_flag();
                self.registers.set8(Register::A, (a >> 1) | (cy << 7));
                self.registers.set_flags(false, false, false, b0 == 1);
            }
            Opcode::DAA => {
                self.daa();
            }
            Opcode::CPL => {
                let a = self.registers.get8(Register::A);
                self.registers.set8(Register::A, !a);
                let z = self.registers.z_flag();
                let cy = self.registers.cy_flag();
                self.registers.set_flags(z == 1, true, true, cy == 1);
            }
            Opcode::CCF => {
                let z = self.registers.z_flag();
                let n = self.registers.n_flag();
                let h = self.registers.h_flag();
                let cy = self.registers.cy_flag();
                self.registers.set_flags(z == 1, n == 1, h == 1, cy == 0);
            }
            Opcode::SCF => {
                let z = self.registers.z_flag();
                self.registers.set_flags(z == 1, false, false, true);
            }
            Opcode::DI => {
                self.ime = false;
            }
            Opcode::EI => {
                self.ime = true;
            }
            Opcode::HALT => {
                self.halted = true;
            }
            Opcode::STOP => {
                self.halted = true;
            }
            Opcode::INVALID(_) => {}
            _ => {
                proof {
                    assert(false);
                }
            }
        }
        }

        self.registers.inc_pc(instr.n_bytes);
        cycles
    }

    /// Execute one 8-bit load (plain, post-increment or post-decrement),
    /// leaving the program counter to the caller.
    #[verifier::rlimit(100)]
    #[verifier::spinoff_prover]
    fn eval_ld8(&mut self, instr: Instr, memory_bus: &mut MemoryBus)
        requires
            old(memory_bus).wf(),
            instr.wf(),
            opcode_is_ld8_spec(instr.opcode),
        ensures
            final(memory_bus).wf(),
            final(memory_bus).map == old(memory_bus).map,
            (instr.opcode matches Opcode::LD8(dst, src) ==> ld8_rel(*old(self), *old(memory_bus), *final(self), *final(memory_bus), old(self).registers.pc, dst, src, 0)),
            (instr.opcode matches Opcode::LD8I(dst, src) ==> ld8_rel(*old(self), *old(memory_bus), *final(self), *final(memory_bus), old(self).registers.pc, dst, src, 1)),
            (instr.opcode matches Opcode::LD8D(dst, src) ==> ld8_rel(*old(self), *old(memory_bus), *final(self), *final(memory_bus), old(self).registers.pc, dst, src, -1)),
            !writes_mem(instr.opcode) ==> *final(memory_bus) == *old(memory_bus),
    {
        match instr.opcode {
            Opcode::LD8(dst, src) => {
                self.ld8(dst, src, memory_bus);
            }
            Opcode::LD8I(dst, src) => {
                self.ld8(dst, src, memory_bus);
                let hl = self.registers.get16(Register::HL);
                self.registers.set16(Register::HL, wrapping_add16(hl, 1));
            }
            Opcode::LD8D(dst, src) => {
                self.ld8(dst, src, memory_bus);
                let hl = self.registers.get16(Register::HL);
                self.registers.set16(Register::HL, wrapping_sub16(hl, 1));
            }
            _ => {
                proof {
                    assert(false);
                }
            }
        }
    }

    /// Execute one 8-bit increment or decrement, leaving the program
    /// counter to the caller; the carry flag is preserved.
    #[verifier::rlimit(100)]
    #[verifier::spinoff_prover]
    fn eval_incdec(&mut self, instr: Instr, memory_bus: &mut MemoryBus)
        requires
            old(memory_bus).wf(),
            instr.wf(),
            instr.opcode is INC8 || instr.opcode is DEC8,
        ensures
            final(memory_bus).wf(),
            final(memory_bus).map == old(memory_bus).map,
            (instr.opcode matches Opcode::INC8(dst) ==> incdec8_rel(*old(self), *old(memory_bus), *final(self), *final(memory_bus),
                    old(self).registers.pc, dst, ((spec_src8(old(self).registers, *old(memory_bus), dst) + 1) % 256) as u8,
                    (spec_src8(old(self).registers, *old(memory_bus), dst) + 1) % 256 == 0, false, spec_src8(old(self).registers, *old(memory_bus), dst) % 16 == 15)),
            (instr.opcode matches Opcode::DEC8(dst) ==> incdec8_rel(*old(self), *old(memory_bus), *final(self), *final(memory_bus),
                    old(self).registers.pc, dst, ((spec_src8(old(self).registers, *old(memory_bus), dst) - 1) % 256) as u8,
                    spec_src8(old(self).registers, *old(memory_bus), dst) == 1, true, spec_src8(old(self).registers, *old(memory_bus), dst) % 16 == 0)),
            !writes_mem(instr.opcode) ==> *final(memory_bus) == *old(memory_bus),
    {
        match instr.opcode {
            Opcode::INC8(dst) => {
                let a = self.get_u8(dst, memory_bus);
                let out = alu::inc8(a);
                self.ld8(dst, Src::D8(out.0), memory_bus);
                let cy = self.registers.cy_flag();
                self.registers.set_flags(out.1, false, out.2, cy == 1);
            }
            Opcode::DEC8(dst) => {
                let a = self.get_u8(dst, memory_bus);
                let out = alu::dec8(a);
                self.ld8(dst, Src::D8(out.0), memory_bus);
                let cy = self.registers.cy_flag();
                self.registers.set_flags(out.1, true, out.2, cy == 1);
            }
            _ => {
                proof {
                    assert(false);
                }
            }
        }
    }

    /// Execute one 16-bit load, leaving the program counter to the
    /// caller.
    #[verifier::rlimit(100)]
    #[verifier::spinoff_prover]
    fn eval_ld16(&mut self, instr: Instr, memory_bus: &mut MemoryBus)
        requires
            old(memory_bus).wf(),
            instr.wf(),
            instr.opcode is LD16,
            (instr.opcode matches Opcode::LD16(Src::A16(a), _) ==> a < 0xFFFF),
        ensures
            final(memory_bus).wf(),
            final(memory_bus).map == old(memory_bus).map,
            (instr.opcode matches Opcode::LD16(dst, src) ==> ld16_rel(*old(self), *old(memory_bus), *final(self), *final(memory_bus), old(self).registers.pc, dst, src)),
            !writes_mem(instr.opcode) ==> *final(memory_bus) == *old(memory_bus),
    {
        match instr.opcode {
            Opcode::LD16(Src::Reg(Register::HL), Src::I8(v)) => {
                let sp = self.registers.get16(Register::SP);
                let out = alu::add16_signed(sp, v);
                self.registers.set16(Register::HL, out.0);
                self.registers.set_flags(false, false, out.1, out.2);
            }
            Opcode::LD16(dst, src) => {
                self.ld16(dst, src, memory_bus);
            }
            _ => {
                proof {
                    assert(false);
                }
            }
        }
    }

    /// Execute one accumulator-arithmetic instruction, leaving the
    /// program counter to the caller; result and flags follow the exact
    /// truth tables.
    #[verifier::rlimit(100)]
    #[verifier::spinoff_prover]
    fn eval_alu(&mut self, instr: Instr, memory_bus: &mut MemoryBus)
        requires
            old(memory_bus).wf(),
            instr.wf(),
            opcode_is_alu8_spec(instr.opcode),
        ensures
            *final(memory_bus) == *old(memory_bus),
            final(self).ime == old(self).ime,
            final(self).halted == old(self).halted,
            final(self).debug == old(self).debug,
            final(self).registers.pc == old(self).registers.pc,
            (instr.opcode matches Opcode::ADD8(s) ==> alu_a_rel(*old(self), *old(memory_bus),
                    *final(self), old(self).registers.pc, alu::spec_add8(old(self).registers.a, spec_src8(old(self).registers, *old(memory_bus), s), 0))),
            (instr.opcode matches Opcode::ADC8(s) ==> alu_a_rel(*old(self), *old(memory_bus),
                    *final(self), old(self).registers.pc, alu::spec_add8(old(self).registers.a, spec_src8(old(self).registers, *old(memory_bus), s), old(self).registers.spec_cy()))),
            (instr.opcode matches Opcode::SUB8(s) ==> alu_a_rel(*old(self), *old(memory_bus),
                    *final(self), old(self).registers.pc, alu::spec_sub8(old(self).registers.a, spec_src8(old(self).registers, *old(memory_bus), s), 0))),
            (instr.opcode matches Opcode::SBC8(s) ==> alu_a_rel(*old(self), *old(memory_bus),
                    *final(self), old(self).registers.pc, alu::spec_sub8(old(self).registers.a, spec_src8(old(self).registers, *old(memory_bus), s), old(self).registers.spec_cy()))),
            (instr.opcode matches Opcode::CP(s) ==> *final(self) == (Cpu {
                    registers: (Registers {
                            f: flags_of(alu::spec_sub8(old(self).registers.a, spec_src8(old(self).registers, *old(memory_bus), s), 0)),
                        ..old(self).registers
                    }),
                    ..*old(self)
                })),
            (instr.opcode matches Opcode::AND(s) ==> *final(self) == (Cpu {
                    registers: (Registers {
                            a: old(self).registers.a & spec_src8(old(self).registers, *old(memory_bus), s),
                        f: spec_pack_flags(old(self).registers.a & spec_src8(old(self).registers, *old(memory_bus), s) == 0, false, true, false),
                        ..old(self).registers
                    }),
                    ..*old(self)
                })),
            (instr.opcode matches Opcode::OR(s) ==> *final(self) == (Cpu {
                    registers: (Registers {
                            a: old(self).registers.a | spec_src8(old(self).registers, *old(memory_bus), s),
                        f: spec_pack_flags(old(self).registers.a | spec_src8(old(self).registers, *old(memory_bus), s) == 0, false, false, false),
                        ..old(self).registers
                    }),
                    ..*old(self)
                })),
            (instr.opcode matches Opcode::XOR(s) ==> *final(self) == (Cpu {
                    registers: (Registers {
                            a: old(self).registers.a ^ spec_src8(old(self).registers, *old(memory_bus), s),
                        f: spec_pack_flags(old(self).registers.a ^ spec_src8(old(self).registers, *old(memory_bus), s) == 0, false, false, false),
                        ..old(self).registers
                    }),
                    ..*old(self)
                })),
    {
        match instr.opcode {
            Opcode::ADD8(src) => {
                let a = self.registers.get8(Register::A);
                let b = self.get_u8(src, memory_bus);
                let out = alu::add8(a, b, 0);
                self.registers.set8(Register::A, out.v);
                self.registers.set_flags(out.z, out.n, out.h, out.cy);
            }
            Opcode::ADC8(src) => {
                let a = self.registers.get8(Register::A);
                let b = self.get_u8(src, memory_bus);
                let cy = self.registers.cy_flag();
                let out = alu::add8(a, b, cy);
                self.registers.set8(Register::A, out.v);
                self.registers.set_flags(out.z, out.n, out.h, out.cy);
            }
            Opcode::SUB8(src) => {
                let a = self.registers.get8(Register::A);
                let b = self.get_u8(src, memory_bus);
                let out = alu::sub8(a, b, 0);
                self.registers.set8(Register::A, out.v);
                self.registers.set_flags(out.z, out.n, out.h, out.cy);
            }
            Opcode::SBC8(src) => {
                let a = self.registers.get8(Register::A);
                let b = self.get_u8(src, memory_bus);
                let cy = self.registers.cy_flag();
                let out = alu::sub8(a, b, cy);
                self.registers.set8(Register::A, out.v);
                self.registers.set_flags(out.z, out.n, out.h, out.cy);
            }
            Opcode::AND(src) => {
                let a = self.registers.get8(Register::A);
                let b = self.get_u8(src, memory_bus);
                let out = alu::and8(a, b);
                self.registers.set8(Register::A, out.v);
                self.registers.set_flags(out.z, out.n, out.h, out.cy);
            }
            Opcode::OR(src) => {
                let a = self.registers.get8(Register::A);
                let b = self.get_u8(src, memory_bus);
                let out = alu::or8(a, b);
                self.registers.set8(Register::A, out.v);
                self.registers.set_flags(out.z, out.n, out.h, out.cy);
            }
            Opcode::XOR(src) => {
                let a = self.registers.get8(Register::A);
                let b = self.get_u8(src, memory_bus);
                let out = alu::xor8(a, b);
                self.registers.set8(Register::A, out.v);
                self.registers.set_flags(out.z, out.n, out.h, out.cy);
            }
            Opcode::CP(src) => {
                let a = self.registers.get8(Register::A);
                let b = self.get_u8(src, memory_bus);
                let out = alu::sub8(a, b, 0);
                self.registers.set_flags(out.z, out.n, out.h, out.cy);
            }
            _ => {
                proof {
                    assert(false);
                }
            }
        }
    }

    /// Execute one rotate, shift, swap or bit instruction, leaving the
    /// program counter to the caller.
    #[verifier::rlimit(100)]
    #[verifier::spinoff_prover]
    fn eval_rotbit(&mut self, instr: Instr, memory_bus: &mut MemoryBus)
        requires
            old(memory_bus).wf(),
            instr.wf(),
            opcode_is_rotbit_spec(instr.opcode),
        ensures
            final(memory_bus).wf(),
            final(memory_bus).map == old(memory_bus).map,
            final(self).ime == old(self).ime,
            final(self).halted == old(self).halted,
            final(self).debug == old(self).debug,
            final(self).registers.pc == old(self).registers.pc,
            final(self).registers.sp == old(self).registers.sp,
            (opcode_is_rotbit_spec(instr.opcode) ==> rotbit_rel(*old(self), *old(memory_bus), *final(self), *final(memory_bus), old(self).registers.pc, instr.opcode)),
            !writes_mem(instr.opcode) ==> *final(memory_bus) == *old(memory_bus),
    {
        match instr.opcode {
            Opcode::RLC(dst) => {
                let a = self.get_u8(dst, memory_bus);
                let b7 = crate::bits::bit(a, 7);
                let r = (a << 1) | b7;
                self.ld8(dst, Src::D8(r), memory_bus);
                self.registers.set_flags(r == 0, false, false, b7 == 1);
            }
            Opcode::RL(dst) => {
                let a = self.get_u8(dst, memory_bus);
                let b7 = crate::bits::bit(a, 7);
                let cy = self.registers.cy_flag();
                let r = (a << 1) | cy;
                self.ld8(dst, Src::D8(r), memory_bus);
                self.registers.set_flags(r == 0, false, false, b7 == 1);
            }
            Opcode::RRC(dst) => {
                let a = self.get_u8(dst, memory_bus);
                let b0 = a & 1;
                let r = (a >> 1) | (b0 << 7);
                self.ld8(dst, Src::D8(r), memory_bus);
                self.registers.set_flags(r == 0, false, false, b0 == 1);
            }
            Opcode::RR(dst) => {
                let a = self.get_u8(dst, memory_bus);
                let b0 = a & 1;
                let cy = self.registers.cy_flag();
                let r = (a >> 1) | (cy << 7);
                self.ld8(dst, Src::D8(r), memory_bus);
                self.registers.set_flags(r == 0, false, false, b0 == 1);
            }
            Opcode::SLA(dst) => {
                let a = self.get_u8(dst, memory_bus);
                let b7 = crate::bits::bit(a, 7);
                let r = a << 1;
                self.ld8(dst, Src::D8(r), memory_bus);
                self.registers.set_flags(r == 0, false, false, b7 == 1);
            }
            Opcode::SRA(dst) => {
                let a = self.get_u8(dst, memory_bus);
                let b0 = a & 1;
                let b7 = crate::bits::bit(a, 7);
                let r = (a >> 1) | (b7 << 7);
                self.ld8(dst, Src::D8(r), memory_bus);
                self.registers.set_flags(r == 0, false, false, b0 == 1);
            }
            Opcode::SRL(dst) => {
                let a = self.get_u8(dst, memory_bus);
                let b0 = a & 1;
                let r = a >> 1;
                self.ld8(dst, Src::D8(r), memory_bus);
                self.registers.set_flags(r == 0, false, false, b0 == 1);
            }
            Opcode::SWAP(dst) => {
                let a = self.get_u8(dst, memory_bus);
                let r = (a << 4) | (a >> 4);
                self.ld8(dst, Src::D8(r), memory_bus);
                self.registers.set_flags(r == 0, false, false, false);
            }
            Opcode::BIT(bi, src) => {
                let a = self.get_u8(src, memory_bus);
                let b = crate::bits::bit(a, bi);
                let cy = self.registers.cy_flag();
                self.registers.set_flags(b == 0, false, true, cy == 1);
            }
            Opcode::RES(bi, dst) => {
                let a = self.get_u8(dst, memory_bus);
                let mask = 0xFF ^ ((1 as u8) << bi);
                let r = a & mask;
                self.ld8(dst, Src::D8(r), memory_bus);
            }
            Opcode::SET(bi, dst) => {
                let a = self.get_u8(dst, memory_bus);
                let mask = (1 as u8) << bi;
                let r = a | mask;
                self.ld8(dst, Src::D8(r), memory_bus);
            }
            _ => {
                proof {
                    assert(false);
                }
            }
        }
    }


    /// The decimal-adjust correction: a table-free branch on the subtract,
    /// half-carry and carry flags from the previous arithmetic operation.
    fn daa(&mut self)
        ensures
            *final(self) == (Cpu {
                registers: (Registers {
                    a: spec_daa_result(old(self).registers).0,
                    f: spec_daa_result(old(self).registers).1,
                    ..old(self).registers
                }),
                ..*old(self)
            }),
    {
        let a = self.registers.get8(Register::A);
        let ln = a & 0xF;
        let hn = (a >> 4) & 0xF;
        let mut to_add: u16 = 0;
        let h_flag = self.registers.h_flag() == 1;
        let cy_flag = self.registers.cy_flag() == 1;
        let n_flag = self.registers.n_flag() == 1;
        let mut set_cy = false;
        if n_flag {
            if !cy_flag {
                if hn <= 8 && ln >= 6 && h_flag {
                    to_add = 0xFA;
                }
            } else {
                if hn >= 7 && !h_flag && ln <= 9 {
                    to_add = 0xA0;
                    set_cy = true;
                } else if hn >= 6 && h_flag && ln >= 6 {
                    to_add = 0x9A;
                    set_cy = true;
                }
            }
        } else {
            if ln >= 10 || h_flag {
                to_add = to_add + 6;
            }
            if hn >= 10 || cy_flag {
                to_add = to_add + 0x60;
                set_cy = true;
            }
        }
        let r = (((a as u16) + to_add) % 256) as u8;
        self.registers.set8(Register::A, r);
        self.registers.set_flags(r == 0, n_flag, false, set_cy);
    }

    /// Push the address of the following instruction: high byte at sp-1,
    /// low byte at sp-2, stack pointer lowered by two.
    fn push_pc(&mut self, n: u16, memory_bus: &mut MemoryBus)
        requires
            old(memory_bus).wf(),
            old(self).registers.sp >= 2,
            old(self).registers.pc + n <= 0xFFFF,
        ensures
            final(memory_bus).wf(),
            final(memory_bus).map == old(memory_bus).map,
            final(self).registers == (Registers {
                sp: (old(self).registers.sp - 2) as u16,
                ..old(self).registers
            }),
            final(self).ime == old(self).ime,
            final(self).halted == old(self).halted,
            final(self).debug == old(self).debug,
            old(memory_bus).plain_ram_at((old(self).registers.sp - 1) as u16) && old(
                memory_bus).plain_ram_at((old(self).registers.sp - 2) as u16) ==> {
                &&& final(memory_bus).read8((old(self).registers.sp - 1) as u16)
                    == spec_high_byte((old(self).registers.pc + n) as u16)
                &&& final(memory_bus).read8((old(self).registers.sp - 2) as u16)
                    == spec_low_byte((old(self).registers.pc + n) as u16)
                &&& forall|a: u16|
                    a != old(self).registers.sp - 1 && a != old(self).registers.sp - 2
                        ==> final(memory_bus).read8(a) == old(memory_bus).read8(a)
                &&& forall|a: u16|
                    final(memory_bus).plain_ram_at(a) == old(memory_bus).plain_ram_at(a)
                &&& final(memory_bus).devices.interrupt_controller == old(
                    memory_bus).devices.interrupt_controller
            },
    {
        let pc = self.registers.get16(Register::PC) + n;
        let sp = self.registers.get16(Register::SP);
        let hb = crate::bits::high_byte(pc);
        let lb = crate::bits::low_byte(pc);
        let ghost pre_bus = *memory_bus;
        memory_bus.set8(sp - 1, hb);
        let ghost mid_bus = *memory_bus;
        memory_bus.set8(sp - 2, lb);
        self.registers.set16(Register::SP, sp - 2);
        proof {
            reveal(crate::bus::MemoryBus::write8_rel);
            if pre_bus.plain_ram_at((sp - 1) as u16) && pre_bus.plain_ram_at(
                (sp - 2) as u16) {
                crate::bus::lemma_plain_write(pre_bus, mid_bus, (sp - 1) as u16, hb);
                crate::bus::lemma_plain_write(mid_bus, *memory_bus, (sp - 2) as u16, lb);
            }
        }
    }

    /// Pop the return address: low byte at sp, high byte at sp+1, stack
    /// pointer raised by two; the bus is only read.
    fn pop_pc(&mut self, memory_bus: &MemoryBus)
        requires
            memory_bus.wf(),
            old(self).registers.sp + 2 <= 0xFFFF,
        ensures
            final(self).registers == (Registers {
                pc: spec_combine16(memory_bus.read8((old(self).registers.sp + 1) as u16),
                    memory_bus.read8(old(self).registers.sp)),
                sp: (old(self).registers.sp + 2) as u16,
                ..old(self).registers
            }),
            final(self).ime == old(self).ime,
            final(self).halted == old(self).halted,
            final(self).debug == old(self).debug,
    {
        let sp = self.registers.get16(Register::SP);
        let lb = memory_bus.get8(sp);
        let hb = memory_bus.get8(sp + 1);
        let addr = crate::bits::combine16(hb, lb);
        self.registers.set16(Register::PC, addr);
        self.registers.set16(Register::SP, sp + 2);
    }

    pub fn flag_match(&self, fc: FlagCondition) -> (r: bool)
        ensures
            r == spec_cond(fc, self.registers),
    {
        match fc {
            FlagCondition::Z => self.registers.z_flag() == 1,
            FlagCondition::NZ => self.registers.z_flag() == 0,
            FlagCondition::C => self.registers.cy_flag() == 1,
            FlagCondition::NC => self.registers.cy_flag() == 0,
            FlagCondition::ALWAYS => true,
        }
    }

    /// Store an 8-bit value where `dst` points: a register cell, or one
    /// byte of memory through the bus.
    fn ld8(&mut self, dst: Src, src: Src, memory_bus: &mut MemoryBus)
        requires
            old(memory_bus).wf(),
            dst.writable8(),
            src.readable8(),
        ensures
            final(memory_bus).wf(),
            final(memory_bus).map == old(memory_bus).map,
            final(self).ime == old(self).ime,
            final(self).halted == old(self).halted,
            final(self).debug == old(self).debug,
            dst is Reg ==> *final(memory_bus) == *old(memory_bus) && final(self).registers
                == old(self).registers.spec_set8(dst->Reg_0, spec_src8(old(self).registers,
                *old(memory_bus), src)),
            !(dst is Reg) ==> final(self).registers == old(self).registers && old(
                memory_bus).write8_rel(*final(memory_bus), spec_dst8_addr(
                old(self).registers, dst), spec_src8(old(self).registers, *old(memory_bus),
                src)),
    {
        proof {
            reveal(crate::bus::MemoryBus::write8_rel);
        }
        let v = self.get_u8(src, memory_bus);
        match dst {
            Src::Reg(r) => self.registers.set8(r, v),
            Src::Deref(Register::C) => {
                let c = self.registers.get8(Register::C);
                memory_bus.set8(0xFF00 + c as u16, v);
            }
            Src::Deref(r) => {
                let a = self.registers.get16(r);
                memory_bus.set8(a, v);
            }
            Src::A16(a16) => memory_bus.set8(a16, v),
            Src::A8(a8) => memory_bus.set8(0xFF00 + a8 as u16, v),
            _ => {}
        }
    }

    fn get_u8(&self, src: Src, memory_bus: &MemoryBus) -> (r: u8)
        requires
            memory_bus.wf(),
            src.readable8(),
        ensures
            r == spec_src8(self.registers, *memory_bus, src),
    {
        match src {
            Src::Reg(r) => self.registers.get8(r),
            Src::D8(d8) => d8,
            Src::Deref(Register::C) => {
                let c = self.registers.get8(Register::C);
                memory_bus.get8(0xFF00 + c as u16)
            }
            Src::Deref(r) => {
                let a = self.registers.get16(r);
                memory_bus.get8(a)
            }
            Src::A8(a8) => memory_bus.get8(0xFF00 + a8 as u16),
            Src::A16(a16) => memory_bus.get8(a16),
            _ => 0,
        }
    }

    /// Store a 16-bit value where `dst` points: a register pair, or two
    /// bytes of memory, high byte first.
    fn ld16(&mut self, dst: Src, src: Src, memory_bus: &mut MemoryBus)
        requires
            old(memory_bus).wf(),
            dst.writable16(),
            src.readable16(),
            dst is A16 ==> dst->A16_0 < 0xFFFF,
        ensures
            final(memory_bus).wf(),
            final(memory_bus).map == old(memory_bus).map,
            final(self).ime == old(self).ime,
            final(self).halted == old(self).halted,
            final(self).debug == old(self).debug,
            dst is Reg ==> *final(memory_bus) == *old(memory_bus) && final(self).registers
                == old(self).registers.spec_set16(dst->Reg_0, spec_src16(old(self).registers,
                src)),
            dst is A16 ==> final(self).registers == old(self).registers && write2_rel(
                *old(memory_bus), *final(memory_bus), dst->A16_0, (dst->A16_0 + 1) as u16,
                spec_src16(old(self).registers, src)),
    {
        let v = self.get_u16(src);
        match dst {
            Src::Reg(r) => self.registers.set16(r, v),
            Src::A16(a16) => memory_bus.set16(a16, v),
            _ => {}
        }
    }

    fn get_u16(&self, src: Src) -> (r: u16)
        requires
            src.readable16(),
        ensures
            r == spec_src16(self.registers, src),
    {
        match src {
            Src::Reg(r) => self.registers.get16(r),
            Src::D16(d16) => d16,
            Src::I8(v) => #[verifier::truncate] (v as u16),
            _ => 0,
        }
    }

    fn disassemble(&self, memory_bus: &MemoryBus) -> (r: Instr)
        requires
            memory_bus.wf(),
            self.registers.pc + 2 <= 0xFFFF,
        ensures
            r == spec_decoded(*self, *memory_bus),
            r.wf(),
    {
        let instr_bytes = memory_bus.get_arr3(self.registers.pc());
        Instr::disassemble(instr_bytes.as_slice())
    }
}

/// The accumulator-arithmetic opcodes.
pub open spec fn opcode_is_alu8_spec(op: Opcode) -> bool {
    op is ADD8 || op is ADC8 || op is SUB8 || op is SBC8 || op is AND || op is OR
        || op is XOR || op is CP
}

fn opcode_is_alu8(op: &Opcode) -> (r: bool)
    ensures
        r == opcode_is_alu8_spec(*op),
{
    match op {
        Opcode::ADD8(_) | Opcode::ADC8(_) | Opcode::SUB8(_) | Opcode::SBC8(_)
        | Opcode::AND(_) | Opcode::OR(_) | Opcode::XOR(_) | Opcode::CP(_) => true,
        _ => false,
    }
}

/// The rotate, shift, swap and bit-test opcodes.
pub open spec fn opcode_is_rotbit_spec(op: Opcode) -> bool {
    op is RLC || op is RL || op is RRC || op is RR || op is SLA || op is SRA || op is SRL
        || op is SWAP || op is BIT || op is RES || op is SET
}

fn opcode_is_rotbit(op: &Opcode) -> (r: bool)
    ensures
        r == opcode_is_rotbit_spec(*op),
{
    match op {
        Opcode::RLC(_) | Opcode::RL(_) | Opcode::RRC(_) | Opcode::RR(_) | Opcode::SLA(_)
        | Opcode::SRA(_) | Opcode::SRL(_) | Opcode::SWAP(_) | Opcode::BIT(_, _)
        | Opcode::RES(_, _) | Opcode::SET(_, _) => true,
        _ => false,
    }
}

/// The 8-bit load opcodes, including the auto-pointer forms.
pub open spec fn opcode_is_ld8_spec(op: Opcode) -> bool {
    op is LD8 || op is LD8I || op is LD8D
}

fn opcode_is_ld8(op: &Opcode) -> (r: bool)
    ensures
        r == opcode_is_ld8_spec(*op),
{
    match op {
        Opcode::LD8(_, _) | Opcode::LD8I(_, _) | Opcode::LD8D(_, _) => true,
        _ => false,
    }
}

/// The 8-bit increment and decrement opcodes.
fn opcode_is_incdec(op: &Opcode) -> (r: bool)
    ensures
        r == (*op is INC8 || *op is DEC8),
{
    match op {
        Opcode::INC8(_) | Opcode::DEC8(_) => true,
        _ => false,
    }
}

/// The 16-bit load opcodes.
fn opcode_is_ld16(op: &Opcode) -> (r: bool)
    ensures
        r == (*op is LD16),
{
    match op {
        Opcode::LD16(_, _) => true,
        _ => false,
    }
}

/// Whether a decoded instruction redirects control flow.
fn is_control_exec(i: &Instr) -> (r: bool)
    ensures
        r == i.is_control(),
{
    match i.opcode {
        Opcode::JP(_, _) | Opcode::JR(_, _) | Opcode::CALL(_, _) | Opcode::RET(_)
        | Opcode::RETI | Opcode::RST(_) => true,
        _ => false,
    }
}

/// Taking a value modulo the address-space size twice is the same as once.
proof fn lemma_mod_add_compose(x: int, n: int)
    requires
        0 <= n,
    ensures
        (x % 0x10000 + n) % 0x10000 == (x + n) % 0x10000,
{
    vstd::arithmetic::div_mod::lemma_add_mod_noop(x, n, 0x10000);
    vstd::arithmetic::div_mod::lemma_mod_twice(x, 0x10000);
    vstd::arithmetic::div_mod::lemma_small_mod((n % 0x10000) as nat, 0x10000);
    vstd::arithmetic::div_mod::lemma_add_mod_noop(x % 0x10000, n, 0x10000);
}

/// A value already inside the address space is its own remainder.
proof fn lemma_small_mod(x: int)
    requires
        0 <= x < 0x10000,
    ensures
        x % 0x10000 == x,
{
    vstd::arithmetic::div_mod::lemma_small_mod(x as nat, 0x10000);
}

/// Addition that wraps at the top of the 16-bit address space.
fn wrapping_add16(a: u16, b: u16) -> (r: u16)
    ensures
        r == (a + b) % 0x10000,
{
    (((a as u32) + (b as u32)) % 0x10000) as u16
}

/// Subtraction that wraps at the bottom of the 16-bit address space.
fn wrapping_sub16(a: u16, b: u16) -> (r: u16)
    ensures
        r == (a - b) % 0x10000,
{
    (((0x10000 + a as u32) - (b as u32)) % 0x10000) as u16
}

/// The preconditions under which one instruction executes without hitting
/// a contract violation: the fetch window fits, the decoded opcode is one
/// the engine implements, and the stack and address operands stay in
/// range.
pub open spec fn eval_safe(cpu: Cpu, bus: MemoryBus) -> bool {
    let i = spec_decoded(cpu, bus);
    let regs = cpu.registers;
    &&& bus.wf()
    &&& regs.pc + 2 <= 0xFFFF
    &&& !(i.opcode is INVALID)
    &&& (i.opcode is PUSH ==> regs.sp >= 2)
    &&& (i.opcode is POP ==> regs.sp + 2 <= 0xFFFF)
    &&& (i.opcode matches Opcode::CALL(fc, _) && spec_cond(fc, regs) ==> regs.sp >= 2
        && regs.pc + i.n_bytes <= 0xFFFF)
    &&& (i.opcode is RST ==> regs.sp >= 2 && regs.pc + i.n_bytes <= 0xFFFF)
    &&& (i.opcode matches Opcode::RET(fc) && spec_cond(fc, regs) ==> regs.sp + 2 <= 0xFFFF)
    &&& (i.opcode is RETI ==> regs.sp + 2 <= 0xFFFF)
    &&& (i.opcode matches Opcode::LD16(Src::A16(a), _) ==> a < 0xFFFF)
}

/// What one instruction execution guarantees: the machine cycles consumed
/// (with the taken/untaken penalty for conditional branches), the
/// program-counter discipline, and the full effect of the stack, jump,
/// accumulator-arithmetic and interrupt-latch instructions.
pub open spec fn eval_rel(pre: Cpu, pre_bus: MemoryBus, post: Cpu, post_bus: MemoryBus,
    cycles: u32) -> bool {
    let i = spec_decoded(pre, pre_bus);
    let regs = pre.registers;
    let pc_next = ((regs.pc + i.n_bytes) % 0x10000) as u16;
    &&& post_bus.wf()
    &&& post_bus.map == pre_bus.map
    // Cycle cost and program-counter discipline.
    &&& (!i.is_control() ==> cycles == i.cycles && post.registers.pc == pc_next)
    &&& (i.opcode matches Opcode::JP(fc, t) ==> if spec_cond(fc, regs) {
        cycles == i.cycles && post == (Cpu {
            registers: (Registers { pc: spec_src16(regs, t), ..regs }),
            ..pre
        }) && post_bus == pre_bus
    } else {
        cycles == i.cycles - 1 && post == (Cpu {
            registers: (Registers { pc: pc_next, ..regs }),
            ..pre
        }) && post_bus == pre_bus
    })
    &&& (i.opcode matches Opcode::JR(fc, o) ==> if spec_cond(fc, regs) {
        cycles == i.cycles && post == (Cpu {
            registers: (Registers { pc: ((regs.pc + o + i.n_bytes) % 0x10000) as u16, ..regs }),
            ..pre
        }) && post_bus == pre_bus
    } else {
        cycles == i.cycles - 1 && post == (Cpu {
            registers: (Registers { pc: pc_next, ..regs }),
            ..pre
        }) && post_bus == pre_bus
    })
    &&& (i.opcode matches Opcode::CALL(fc, a) ==> if spec_cond(fc, regs) {
        cycles == i.cycles && post == (Cpu {
            registers: (Registers { pc: a, sp: (regs.sp - 2) as u16, ..regs }),
            ..pre
        }) && write2_rel(pre_bus, post_bus, (regs.sp - 1) as u16, (regs.sp - 2) as u16,
            ((regs.pc + i.n_bytes) % 0x10000) as u16)
    } else {
        cycles == i.cycles - 3 && post == (Cpu {
            registers: (Registers { pc: pc_next, ..regs }),
            ..pre
        }) && post_bus == pre_bus
    })
    &&& (i.opcode matches Opcode::RST(a) ==> cycles == i.cycles && post == (Cpu {
        registers: (Registers { pc: a as u16, sp: (regs.sp - 2) as u16, ..regs }),
        ..pre
    }) && write2_rel(pre_bus, post_bus, (regs.sp - 1) as u16, (regs.sp - 2) as u16,
        ((regs.pc + i.n_bytes) % 0x10000) as u16))
    &&& (i.opcode matches Opcode::RET(fc) ==> if spec_cond(fc, regs) {
        cycles == i.cycles && post == (Cpu {
            registers: (Registers {
                pc: spec_combine16(pre_bus.read8((regs.sp + 1) as u16), pre_bus.read8(regs.sp)),
                sp: (regs.sp + 2) as u16,
                ..regs
            }),
            ..pre
        }) && post_bus == pre_bus
    } else {
        cycles == i.cycles - 3 && post == (Cpu {
            registers: (Registers { pc: pc_next, ..regs }),
            ..pre
        }) && post_bus == pre_bus
    })
    &&& (i.opcode is RETI ==> cycles == i.cycles && post == (Cpu {
        registers: (Registers {
            pc: spec_combine16(pre_bus.read8((regs.sp + 1) as u16), pre_bus.read8(regs.sp)),
            sp: (regs.sp + 2) as u16,
            ..regs
        }),
        ime: true,
        ..pre
    }) && post_bus == pre_bus)
    // Stack data instructions.
    &&& (i.opcode matches Opcode::PUSH(rr) ==> post == (Cpu {
        registers: (Registers { pc: pc_next, sp: (regs.sp - 2) as u16, ..regs }),
        ..pre
    }) && write2_rel(pre_bus, post_bus, (regs.sp - 2) as u16, (regs.sp - 1) as u16,
        regs.spec_get16(rr)))
    &&& (i.opcode matches Opcode::POP(rr) ==> post_bus == pre_bus && post == (Cpu {
        registers: (Registers {
            pc: pc_next,
            ..regs.spec_set16(Register::SP, (regs.sp + 2) as u16).spec_set16(rr,
            spec_combine16(pre_bus.read8(regs.sp), pre_bus.read8((regs.sp + 1) as u16)))
        }),
        ..pre
    }))
    // Accumulator arithmetic with exact flag truth tables.
    &&& (i.opcode matches Opcode::ADD8(s) ==> post_bus == pre_bus && alu_a_rel(pre, pre_bus,
        post, pc_next, alu::spec_add8(regs.a, spec_src8(regs, pre_bus, s), 0)))
    &&& (i.opcode matches Opcode::ADC8(s) ==> post_bus == pre_bus && alu_a_rel(pre, pre_bus,
        post, pc_next, alu::spec_add8(regs.a, spec_src8(regs, pre_bus, s), regs.spec_cy())))
    &&& (i.opcode matches Opcode::SUB8(s) ==> post_bus == pre_bus && alu_a_rel(pre, pre_bus,
        post, pc_next, alu::spec_sub8(regs.a, spec_src8(regs, pre_bus, s), 0)))
    &&& (i.opcode matches Opcode::SBC8(s) ==> post_bus == pre_bus && alu_a_rel(pre, pre_bus,
        post, pc_next, alu::spec_sub8(regs.a, spec_src8(regs, pre_bus, s), regs.spec_cy())))
    &&& (i.opcode matches Opcode::CP(s) ==> post_bus == pre_bus && post == (Cpu {
        registers: (Registers {
            pc: pc_next,
            f: flags_of(alu::spec_sub8(regs.a, spec_src8(regs, pre_bus, s), 0)),
            ..regs
        }),
        ..pre
    }))
    &&& (i.opcode matches Opcode::AND(s) ==> post_bus == pre_bus && post == (Cpu {
        registers: (Registers {
            pc: pc_next,
            a: regs.a & spec_src8(regs, pre_bus, s),
            f: spec_pack_flags(regs.a & spec_src8(regs, pre_bus, s) == 0, false, true, false),
            ..regs
        }),
        ..pre
    }))
    &&& (i.opcode matches Opcode::OR(s) ==> post_bus == pre_bus && post == (Cpu {
        registers: (Registers {
            pc: pc_next,
            a: regs.a | spec_src8(regs, pre_bus, s),
            f: spec_pack_flags(regs.a | spec_src8(regs, pre_bus, s) == 0, false, false, false),
            ..regs
        }),
        ..pre
    }))
    &&& (i.opcode matches Opcode::XOR(s) ==> post_bus == pre_bus && post == (Cpu {
        registers: (Registers {
            pc: pc_next,
            a: regs.a ^ spec_src8(regs, pre_bus, s),
            f: spec_pack_flags(regs.a ^ spec_src8(regs, pre_bus, s) == 0, false, false, false),
            ..regs
        }),
        ..pre
    }))
    // Interrupt latch.
    &&& (i.opcode is DI ==> post == (Cpu {
        registers: (Registers { pc: pc_next, ..regs }),
        ime: false,
        ..pre
    }) && post_bus == pre_bus)
    &&& (i.opcode is EI ==> post == (Cpu {
        registers: (Registers { pc: pc_next, ..regs }),
        ime: true,
        ..pre
    }) && post_bus == pre_bus)
    &&& (i.opcode is NOP ==> post == (Cpu {
        registers: (Registers { pc: pc_next, ..regs }),
        ..pre
    }) && post_bus == pre_bus)
    // Halt and stop record the waiting latch; interrupt delivery timing
    // is left to the orchestration layer, so execution itself carries on
    // at the next instruction.
    &&& (i.opcode is HALT || i.opcode is STOP ==> post == (Cpu {
        registers: (Registers { pc: pc_next, ..regs }),
        halted: true,
        ..pre
    }) && post_bus == pre_bus)
    // Accumulator rotates.
    &&& (i.opcode is RLCA ==> post_bus == pre_bus && post == (Cpu {
        registers: (Registers {
            pc: pc_next,
            a: (regs.a << 1) | crate::bits::spec_bit(regs.a, 7),
            f: spec_pack_flags(false, false, false, crate::bits::spec_bit(regs.a, 7) == 1),
            ..regs
        }),
        ..pre
    }))
    &&& (i.opcode is RLA ==> post_bus == pre_bus && post == (Cpu {
        registers: (Registers {
            pc: pc_next,
            a: (regs.a << 1) | regs.spec_cy(),
            f: spec_pack_flags(false, false, false, crate::bits::spec_bit(regs.a, 7) == 1),
            ..regs
        }),
        ..pre
    }))
    &&& (i.opcode is RRCA ==> post_bus == pre_bus && post == (Cpu {
        registers: (Registers {
            pc: pc_next,
            a: (regs.a >> 1) | ((regs.a & 1) << 7),
            f: spec_pack_flags(false, false, false, regs.a & 1 == 1),
            ..regs
        }),
        ..pre
    }))
    &&& (i.opcode is RRA ==> post_bus == pre_bus && post == (Cpu {
        registers: (Registers {
            pc: pc_next,
            a: (regs.a >> 1) | (regs.spec_cy() << 7),
            f: spec_pack_flags(false, false, false, regs.a & 1 == 1),
            ..regs
        }),
        ..pre
    }))
    // 8-bit loads: a register destination updates the register file, a
    // memory destination routes one byte through the bus.
    &&& (i.opcode matches Opcode::LD8(dst, src) ==> ld8_rel(pre, pre_bus, post, post_bus,
        pc_next, dst, src, 0))
    &&& (i.opcode matches Opcode::LD8I(dst, src) ==> ld8_rel(pre, pre_bus, post, post_bus,
        pc_next, dst, src, 1))
    &&& (i.opcode matches Opcode::LD8D(dst, src) ==> ld8_rel(pre, pre_bus, post, post_bus,
        pc_next, dst, src, -1))
    // 8-bit increment and decrement: result and flags, carry preserved.
    &&& (i.opcode matches Opcode::INC8(dst) ==> incdec8_rel(pre, pre_bus, post, post_bus,
        pc_next, dst, ((spec_src8(regs, pre_bus, dst) + 1) % 256) as u8, (spec_src8(regs,
        pre_bus, dst) + 1) % 256 == 0, false, spec_src8(regs, pre_bus, dst) % 16 == 15))
    &&& (i.opcode matches Opcode::DEC8(dst) ==> incdec8_rel(pre, pre_bus, post, post_bus,
        pc_next, dst, ((spec_src8(regs, pre_bus, dst) - 1) % 256) as u8, spec_src8(regs,
        pre_bus, dst) == 1, true, spec_src8(regs, pre_bus, dst) % 16 == 0))
    // 16-bit loads, including the stack-relative load with signed offset.
    &&& (i.opcode matches Opcode::LD16(dst, src) ==> ld16_rel(pre, pre_bus, post, post_bus,
        pc_next, dst, src))
    // Rotates, shifts, swaps and bit test/set/clear from the extended
    // table.
    &&& (opcode_is_rotbit_spec(i.opcode) ==> rotbit_rel(pre, pre_bus, post, post_bus,
        pc_next, i.opcode))
    // 16-bit add into a pair: carry out of bit 11 and bit 15, zero flag
    // preserved; the signed-immediate form instead clears the zero flag.
    &&& (i.opcode matches Opcode::ADD16(rr, src) ==> if src is I8 {
        post_bus == pre_bus && post == (Cpu {
            registers: (Registers {
                pc: pc_next,
                f: spec_pack_flags(false, false, (regs.spec_get16(rr) % 0x1000) + ((
                    src->I8_0 as u16) % 0x1000) >= 0x1000, regs.spec_get16(rr) + src->I8_0
                    >= 0x10000),
                ..regs.spec_set16(rr, ((regs.spec_get16(rr) + src->I8_0) % 0x10000) as u16)
            }),
            ..pre
        })
    } else {
        post_bus == pre_bus && post == (Cpu {
            registers: (Registers {
                pc: pc_next,
                f: spec_pack_flags(regs.spec_z() == 1, false, (regs.spec_get16(rr) % 0x1000)
                    + (spec_src16(regs, src) % 0x1000) >= 0x1000, regs.spec_get16(rr)
                    + spec_src16(regs, src) >= 0x10000),
                ..regs.spec_set16(rr, ((regs.spec_get16(rr) + spec_src16(regs, src))
                    % 0x10000) as u16)
            }),
            ..pre
        })
    })
    // 16-bit increment and decrement wrap at the ends of the space.
    &&& (i.opcode matches Opcode::INC16(rr) ==> post_bus == pre_bus && post == (Cpu {
        registers: (Registers {
            pc: pc_next,
            ..regs.spec_set16(rr, ((regs.spec_get16(rr) + 1) % 0x10000) as u16)
        }),
        ..pre
    }))
    &&& (i.opcode matches Opcode::DEC16(rr) ==> post_bus == pre_bus && post == (Cpu {
        registers: (Registers {
            pc: pc_next,
            ..regs.spec_set16(rr, ((regs.spec_get16(rr) - 1) % 0x10000) as u16)
        }),
        ..pre
    }))
    // Complement and flag manipulation.
    &&& (i.opcode is CPL ==> post_bus == pre_bus && post == (Cpu {
        registers: (Registers {
            pc: pc_next,
            a: !regs.a,
            f: spec_pack_flags(regs.spec_z() == 1, true, true, regs.spec_cy() == 1),
            ..regs
        }),
        ..pre
    }))
    &&& (i.opcode is SCF ==> post_bus == pre_bus && post == (Cpu {
        registers: (Registers {
            pc: pc_next,
            f: spec_pack_flags(regs.spec_z() == 1, false, false, true),
            ..regs
        }),
        ..pre
    }))
    &&& (i.opcode is CCF ==> post_bus == pre_bus && post == (Cpu {
        registers: (Registers {
            pc: pc_next,
            f: spec_pack_flags(regs.spec_z() == 1, regs.spec_n() == 1, regs.spec_h() == 1,
                regs.spec_cy() == 0),
            ..regs
        }),
        ..pre
    }))
    // Decimal adjust.
    &&& (i.opcode is DAA ==> post_bus == pre_bus && post == (Cpu {
        registers: (Registers {
            pc: pc_next,
            a: spec_daa_result(regs).0,
            f: spec_daa_result(regs).1,
            ..regs
        }),
        ..pre
    }))
    // Instructions that cannot write memory leave the bus as it was.
    &&& (!writes_mem(i.opcode) ==> post_bus == pre_bus)
}

/// The accumulator and flag byte after an arithmetic operation.
pub open spec fn alu_a_rel(pre: Cpu, pre_bus: MemoryBus, post: Cpu, pc_next: u16,
    out: alu::AluOut) -> bool {
    post == (Cpu {
        registers: (Registers { pc: pc_next, a: out.v, f: flags_of(out), ..pre.registers }),
        ..pre
    })
}

/// The packed flag byte of an arithmetic result.
pub open spec fn flags_of(out: alu::AluOut) -> u8 {
    spec_pack_flags(out.z, out.n, out.h, out.cy)
}

/// How the bus changes when two bytes of a 16-bit value are stored, the
/// high byte at `a_hi` and the low byte at `a_lo`: when both cells are
/// plainly stored they hold the value's bytes and nothing else changed;
/// the memory map never changes.
pub open spec fn write2_rel(pre_bus: MemoryBus, post_bus: MemoryBus, a_hi: u16, a_lo: u16,
    v: u16) -> bool {
    &&& post_bus.map == pre_bus.map
    &&& pre_bus.plain_ram_at(a_hi) && pre_bus.plain_ram_at(a_lo) ==> {
        &&& post_bus.read8(a_hi) == spec_high_byte(v)
        &&& post_bus.read8(a_lo) == spec_low_byte(v)
        &&& forall|a: u16| a != a_hi && a != a_lo ==> post_bus.read8(a) == pre_bus.read8(a)
        &&& forall|a: u16| post_bus.plain_ram_at(a) == pre_bus.plain_ram_at(a)
        &&& post_bus.devices.interrupt_controller == pre_bus.devices.interrupt_controller
    }
}

/// Stack discipline: pushing one register pair and then popping into
/// another hands the value across intact and restores the stack pointer.
/// Holds for any machine state in which the two bytes below the stack
/// pointer live in plainly stored RAM; `mid`/`mid_bus` and `post`/
/// `post_bus` are the states after the push and after the pop.
pub proof fn lemma_stack_discipline(pre: Cpu, pre_bus: MemoryBus, mid: Cpu,
    mid_bus: MemoryBus, post: Cpu, post_bus: MemoryBus, c1: u32, c2: u32, src: Register,
    dst: Register)
    requires
        spec_decoded(pre, pre_bus).opcode == Opcode::PUSH(src),
        spec_decoded(mid, mid_bus).opcode == Opcode::POP(dst),
        eval_rel(pre, pre_bus, mid, mid_bus, c1),
        eval_rel(mid, mid_bus, post, post_bus, c2),
        pre.registers.sp >= 2,
        pre_bus.plain_ram_at((pre.registers.sp - 1) as u16),
        pre_bus.plain_ram_at((pre.registers.sp - 2) as u16),
        dst is BC || dst is DE || dst is HL || dst is AF,
    ensures
        post.registers.spec_get16(dst) == pre.registers.spec_get16(src),
        post.registers.sp == pre.registers.sp,
{
    let sp = pre.registers.sp;
    let v = pre.registers.spec_get16(src);
    assert(mid.registers.sp == sp - 2);
    assert(mid_bus.read8((sp - 2) as u16) == spec_high_byte(v));
    assert(mid_bus.read8((sp - 1) as u16) == spec_low_byte(v));
    assert(post.registers == (Registers {
        pc: ((mid.registers.pc + spec_decoded(mid, mid_bus).n_bytes) % 0x10000) as u16,
        ..mid.registers.spec_set16(Register::SP, (mid.registers.sp + 2) as u16).spec_set16(
        dst, spec_combine16(mid_bus.read8(mid.registers.sp), mid_bus.read8(
            (mid.registers.sp + 1) as u16)))
    }));
    let loaded = spec_combine16(spec_high_byte(v), spec_low_byte(v));
    crate::bits::lemma_combine_split(v);
    let stacked = mid.registers.spec_set16(Register::SP, (mid.registers.sp + 2) as u16);
    crate::registers::lemma_set16_get16(stacked, dst, loaded);
}

} // verus!
