//! Splitting and joining of multi-byte register values, low byte first.

use vstd::prelude::*;

verus! {

/// The two bytes of `value`, low byte first.
pub fn split_u16(value: u16) -> (r: (u8, u8))
    ensures
        r.0 as int == value as int % 256,
        r.1 as int == value as int / 256,
{
    let lo: u16 = value & 0xFF;
    let hi: u16 = (value >> 8) & 0xFF;
    assert(value & 0xFF == value % 256) by (bit_vector);
    assert((value >> 8) & 0xFF == value / 256) by (bit_vector);
    (lo as u8, hi as u8)
}

/// The value with low byte `low` and high byte `high`.
pub fn join_u16(low: u8, high: u8) -> (v: u16)
    ensures
        v as int == high as int * 256 + low as int,
{
    high as u16 * 256 + low as u16
}

/// The four bytes of `value`, lowest first.
pub fn split_u32(value: u32) -> (r: (u8, u8, u8, u8))
    ensures
        r.0 as int == value as int % 256,
        r.1 as int == (value as int / 256) % 256,
        r.2 as int == (value as int / 65536) % 256,
        r.3 as int == value as int / 16777216,
{
    let b0: u32 = value & 0xFF;
    let b1: u32 = (value >> 8) & 0xFF;
    let b2: u32 = (value >> 16) & 0xFF;
    let b3: u32 = (value >> 24) & 0xFF;
    assert(value & 0xFF == value % 256) by (bit_vector);
    assert((value >> 8) & 0xFF == (value / 256) % 256) by (bit_vector);
    assert((value >> 16) & 0xFF == (value / 65536) % 256) by (bit_vector);
    assert((value >> 24) & 0xFF == value / 16777216) by (bit_vector);
    (b0 as u8, b1 as u8, b2 as u8, b3 as u8)
}

/// The value with the bytes `b0` to `b3`, lowest first.
pub fn join_u32(b0: u8, b1: u8, b2: u8, b3: u8) -> (v: u32)
    ensures
        v as int == b3 as int * 16777216 + b2 as int * 65536 + b1 as int * 256 + b0 as int,
{
    b3 as u32 * 16777216 + b2 as u32 * 65536 + b1 as u32 * 256 + b0 as u32
}

/// Splitting a value and joining the bytes gives the value back, for both
/// widths.
pub proof fn lemma_split_join(value16: u16, value32: u32)
    ensures
        (value16 as int / 256) * 256 + value16 as int % 256 == value16,
        (value32 as int / 16777216) * 16777216 + ((value32 as int / 65536) % 256) * 65536 + ((
        value32 as int / 256) % 256) * 256 + value32 as int % 256 == value32,
{
    let v = value32 as int;
    assert((v / 16777216) * 16777216 + ((v / 65536) % 256) * 65536 + ((v / 256) % 256) * 256 + v
        % 256 == v) by (nonlinear_arith)
        requires
            0 <= v,
    ;
}

} // verus!
