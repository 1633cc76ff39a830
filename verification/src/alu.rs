//! The 8-bit and 16-bit arithmetic/logic operations of the execution engine,
//! each with an exact contract: the result and the four condition flags
//! (Zero, Subtract, Half-carry, Carry) are pinned down for every input.
//!
//! Half-carry is the carry out of bit 3 (bit 11 for 16-bit adds), carry the
//! carry out of bit 7 (bit 15), with borrow semantics mirrored for the
//! subtract-like operations.

use vstd::prelude::*;

verus! {

/// Result and flags of an 8-bit operation: `(value, zero, subtract,
/// half_carry, carry)`.
pub struct AluOut {
    pub v: u8,
    pub z: bool,
    pub n: bool,
    pub h: bool,
    pub cy: bool,
}

/// `a + b + cy` with the add-style flag truth tables.
pub open spec fn spec_add8(a: u8, b: u8, cy: u8) -> AluOut {
    AluOut {
        v: ((a + b + cy) % 256) as u8,
        z: (a + b + cy) % 256 == 0,
        n: false,
        h: (a % 16) + (b % 16) + cy >= 16,
        cy: a + b + cy >= 256,
    }
}

/// `a - b - cy` with the borrow-style flag truth tables.
pub open spec fn spec_sub8(a: u8, b: u8, cy: u8) -> AluOut {
    AluOut {
        v: ((a - b - cy) % 256) as u8,
        z: (a == b + cy),
        n: true,
        h: (a % 16) < (b % 16) + cy,
        cy: (a as int) < b + cy,
    }
}

/// Add with optional carry-in: covers the plain add and add-with-carry
/// opcodes.
pub fn add8(a: u8, b: u8, cy: u8) -> (r: AluOut)
    requires
        cy <= 1,
    ensures
        r == spec_add8(a, b, cy),
{
    let sum: u16 = a as u16 + b as u16 + cy as u16;
    AluOut {
        v: (sum % 256) as u8,
        z: sum % 256 == 0,
        n: false,
        h: (a % 16) + (b % 16) + cy >= 16,
        cy: sum >= 256,
    }
}

/// Subtract with optional borrow-in: covers subtract, subtract-with-carry
/// and compare.
pub fn sub8(a: u8, b: u8, cy: u8) -> (r: AluOut)
    requires
        cy <= 1,
    ensures
        r == spec_sub8(a, b, cy),
{
    let diff: u16 = (256 + a as u16) - b as u16 - cy as u16;
    AluOut {
        v: (diff % 256) as u8,
        z: a as u16 == b as u16 + cy as u16,
        n: true,
        h: (a % 16) < (b % 16) + cy,
        cy: (a as u16) < b as u16 + cy as u16,
    }
}

/// Bitwise AND; half-carry is always set, carry always clear.
pub fn and8(a: u8, b: u8) -> (r: AluOut)
    ensures
        r.v == (a & b),
        r.z == (r.v == 0),
        !r.n,
        r.h,
        !r.cy,
{
    let v = a & b;
    AluOut { v, z: v == 0, n: false, h: true, cy: false }
}

/// Bitwise OR; half-carry and carry always clear.
pub fn or8(a: u8, b: u8) -> (r: AluOut)
    ensures
        r.v == (a | b),
        r.z == (r.v == 0),
        !r.n,
        !r.h,
        !r.cy,
{
    let v = a | b;
    AluOut { v, z: v == 0, n: false, h: false, cy: false }
}

/// Bitwise XOR; half-carry and carry always clear.
pub fn xor8(a: u8, b: u8) -> (r: AluOut)
    ensures
        r.v == (a ^ b),
        r.z == (r.v == 0),
        !r.n,
        !r.h,
        !r.cy,
{
    let v = a ^ b;
    AluOut { v, z: v == 0, n: false, h: false, cy: false }
}

/// Increment: flags as an add of 1 but the carry flag is left to the caller
/// to preserve.
pub fn inc8(a: u8) -> (r: (u8, bool, bool))
    ensures
        r.0 == (a + 1) % 256,
        r.1 == ((a + 1) % 256 == 0),
        r.2 == (a % 16 == 15),
{
    let v = ((a as u16 + 1) % 256) as u8;
    (v, v == 0, a % 16 == 15)
}

/// Decrement: flags as a subtract of 1 but the carry flag is left to the
/// caller to preserve.
pub fn dec8(a: u8) -> (r: (u8, bool, bool))
    ensures
        r.0 == (a - 1) % 256,
        r.1 == (a == 1),
        r.2 == (a % 16 == 0),
{
    let v = (((256 + a as u16) - 1) % 256) as u8;
    (v, a == 1, a % 16 == 0)
}

/// 16-bit add: half-carry is the carry out of bit 11, carry the carry out
/// of bit 15; the zero flag is preserved by the caller.
pub fn add16(a: u16, b: u16) -> (r: (u16, bool, bool))
    ensures
        r.0 == (a + b) % 0x10000,
        r.1 == ((a % 0x1000) + (b % 0x1000) >= 0x1000),
        r.2 == (a + b >= 0x10000),
{
    let sum: u32 = a as u32 + b as u32;
    (
        (sum % 0x10000) as u16,
        (a % 0x1000) + (b % 0x1000) >= 0x1000,
        sum >= 0x10000,
    )
}

/// The 16-bit value `base + offset` with a signed 8-bit offset, wrapping at
/// the ends of the address space, and the half-carry/carry flags of the
/// stack-relative load and add instructions: half-carry out of bit 11 of
/// the two's-complement addition, carry out of bit 15 of the signed sum.
pub fn add16_signed(base: u16, offset: i8) -> (r: (u16, bool, bool))
    ensures
        r.0 == (base + offset) % 0x10000,
        r.1 == ((base % 0x1000) + ((offset as u16) % 0x1000) >= 0x1000),
        r.2 == (base + offset >= 0x10000),
{
    let off16: u16 = #[verifier::truncate] (offset as u16);
    let sum: u32 = ((base as u32 + off16 as u32) % 0x10000) as u32;
    let h = (base % 0x1000) + (off16 % 0x1000) >= 0x1000;
    let c = (base as i32) + (offset as i32) >= 0x10000;
    proof {
        assert(off16 == offset as u16);
        lemma_signed_wrap(base, offset);
    }
    ((sum % 0x10000) as u16, h, c)
}

/// Two's-complement addition of a signed byte agrees with the mathematical
/// sum modulo the size of the address space.
proof fn lemma_signed_wrap(base: u16, offset: i8)
    ensures
        (base + (offset as u16)) % 0x10000 == (base + offset) % 0x10000,
{
    assert(offset >= 0 ==> offset as u16 == offset) by (bit_vector);
    assert(offset < 0 ==> offset as u16 == offset + 0x10000) by (bit_vector);
}

} // verus!
