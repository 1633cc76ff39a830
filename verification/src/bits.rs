//! Small bit-level helpers shared by the CPU and the peripheral devices:
//! single-bit readers and the high/low byte arithmetic used to combine and
//! split 16-bit values.

use vstd::prelude::*;

verus! {

/// Bit `i` of `v`, as 0 or 1.
pub open spec fn spec_bit(v: u8, i: u8) -> u8 {
    (v >> i) & 1
}

/// Bit `i` of `v`, as 0 or 1.
pub fn bit(v: u8, i: u8) -> (r: u8)
    requires
        i < 8,
    ensures
        r == spec_bit(v, i),
        r == 0 || r == 1,
{
    proof {
        assert((v >> i) & 1 == 0 || (v >> i) & 1 == 1) by (bit_vector);
    }
    (v >> i) & 1
}

/// The 16-bit value whose high byte is `hi` and low byte is `lo`.
pub open spec fn spec_combine16(hi: u8, lo: u8) -> u16 {
    (hi * 256 + lo) as u16
}

/// High byte of `v`.
pub open spec fn spec_high_byte(v: u16) -> u8 {
    (v / 256) as u8
}

/// Low byte of `v`.
pub open spec fn spec_low_byte(v: u16) -> u8 {
    (v % 256) as u8
}

pub fn combine16(hi: u8, lo: u8) -> (r: u16)
    ensures
        r == spec_combine16(hi, lo),
        r / 256 == hi,
        r % 256 == lo,
{
    hi as u16 * 256 + lo as u16
}

pub fn high_byte(v: u16) -> (r: u8)
    ensures
        r == spec_high_byte(v),
{
    (v / 256) as u8
}

pub fn low_byte(v: u16) -> (r: u8)
    ensures
        r == spec_low_byte(v),
{
    (v % 256) as u8
}

/// Splitting a 16-bit value into bytes and combining them again is the
/// identity, and the two halves are exactly the shifted and masked forms of
/// the value.
pub proof fn lemma_combine_split(v: u16)
    ensures
        spec_combine16(spec_high_byte(v), spec_low_byte(v)) == v,
        spec_high_byte(v) == v >> 8,
        spec_low_byte(v) == v & 0xFF,
{
    assert((v / 256) * 256 + v % 256 == v as int % 65536) by (bit_vector);
    assert((v / 256) as u8 == v >> 8) by (bit_vector);
    assert((v % 256) as u8 == v & 0xFF) by (bit_vector);
}

} // verus!
