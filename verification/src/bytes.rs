//! Little-endian integers read out of raw table bytes.

use vstd::prelude::*;

verus! {

/// The 16-bit little-endian integer that starts at `at`.
pub open spec fn le_u16(bytes: Seq<u8>, at: int) -> nat {
    (bytes[at] as nat) + 0x100 * (bytes[at + 1] as nat)
}

/// The 32-bit little-endian integer that starts at `at`.
pub open spec fn le_u32(bytes: Seq<u8>, at: int) -> nat {
    le_u16(bytes, at) + 0x1_0000 * le_u16(bytes, at + 2)
}

/// The 64-bit little-endian integer that starts at `at`.
pub open spec fn le_u64(bytes: Seq<u8>, at: int) -> nat {
    le_u32(bytes, at) + 0x1_0000_0000 * le_u32(bytes, at + 4)
}

/// Reads the 16-bit little-endian integer at offset `at`.
pub fn read_u16(bytes: &[u8], at: usize) -> (value: u16)
    requires
        at + 2 <= bytes.len(),
    ensures
        value == le_u16(bytes@, at as int),
{
    let b0: u16 = bytes[at] as u16;
    let b1: u16 = bytes[at + 1] as u16;
    let value: u16 = b0 | (b1 << 8);
    assert(b0 | (b1 << 8) == b0 + 0x100 * b1) by (bit_vector)
        requires
            b0 < 0x100,
            b1 < 0x100,
    ;
    value
}

/// Reads the 32-bit little-endian integer at offset `at`.
pub fn read_u32(bytes: &[u8], at: usize) -> (value: u32)
    requires
        at + 4 <= bytes.len(),
    ensures
        value == le_u32(bytes@, at as int),
{
    let low: u32 = read_u16(bytes, at) as u32;
    let high: u32 = read_u16(bytes, at + 2) as u32;
    let value: u32 = low | (high << 16);
    assert(low | (high << 16) == low + 0x1_0000 * high) by (bit_vector)
        requires
            low < 0x1_0000,
            high < 0x1_0000,
    ;
    value
}

/// Reads the 64-bit little-endian integer at offset `at`.
pub fn read_u64(bytes: &[u8], at: usize) -> (value: u64)
    requires
        at + 8 <= bytes.len(),
    ensures
        value == le_u64(bytes@, at as int),
{
    let low: u64 = read_u32(bytes, at) as u64;
    let high: u64 = read_u32(bytes, at + 4) as u64;
    let value: u64 = low | (high << 32);
    assert(low | (high << 32) == low + 0x1_0000_0000 * high) by (bit_vector)
        requires
            low < 0x1_0000_0000,
            high < 0x1_0000_0000,
    ;
    value
}

} // verus!
