//! Bit-level access to packed firmware fields.
//!
//! The extraction itself is done by the `bit_field` crate. The functions
//! here make its calls and state, in shifts and masks, what those calls
//! return; the lemmas restate the results for the ranges the tables use.

use bit_field::BitField;
use vstd::prelude::*;

verus! {

/// Whether bit `bit` of an 8-bit field is set.
pub open spec fn bit_of_u8(value: u8, bit: u32) -> bool {
    (value & (1u8 << bit)) != 0
}

/// The bits `start..end` of an 8-bit field, moved down to bit 0.
pub open spec fn bit_range_u8(value: u8, start: u32, end: u32) -> u8 {
    if start == end {
        0
    } else {
        (value << ((8 - end) as u32)) >> ((8 - end) as u32) >> start
    }
}

/// Whether bit `bit` of a 32-bit field is set.
pub open spec fn bit_of_u32(value: u32, bit: u32) -> bool {
    (value & (1u32 << bit)) != 0
}

/// The bits `start..end` of a 32-bit field, moved down to bit 0.
pub open spec fn bit_range_u32(value: u32, start: u32, end: u32) -> u32 {
    if start == end {
        0
    } else {
        (value << ((32 - end) as u32)) >> ((32 - end) as u32) >> start
    }
}

/// Whether `field` has no bit set outside its lowest `end - start` bits.
pub open spec fn fits_bit_range_u64(field: u64, start: u32, end: u32) -> bool {
    if start == end {
        field == 0
    } else {
        (field << ((64 - (end - start)) as u32)) >> ((64 - (end - start)) as u32) == field
    }
}

/// A 64-bit field with its bits `start..end` replaced by the low bits of `field`.
pub open spec fn with_bit_range_u64(value: u64, start: u32, end: u32, field: u64) -> u64 {
    if start == end {
        value
    } else {
        let keep: u64 = !(!0u64 << ((64 - end) as u32) >> ((64 - end) as u32) >> start << start);
        (value & keep) | (field << start)
    }
}

/// Calls `BitField::get_bit` of the `bit_field` crate on a `u8`. The call
/// panics when `bit` is not a position of the field, so that is required.
/// The result is that crate's test of the value against a one shifted to
/// position `bit`.
#[verifier::external_body]
pub(crate) fn get_bit_u8(value: u8, bit: u32) -> (set: bool)
    requires
        bit < 8,
    ensures
        set == bit_of_u8(value, bit),
{
    value.get_bit(bit as usize)
}

/// Calls `BitField::get_bits` of the `bit_field` crate on a `u8` with the
/// range `start..end`. The call panics unless the range lies inside the
/// field. The result is what that crate computes: zero for an empty range,
/// else the value with its high bits shifted away to the left and its low
/// bits shifted away to the right.
#[verifier::external_body]
pub(crate) fn get_bits_u8(value: u8, start: u32, end: u32) -> (bits: u8)
    requires
        start < 8,
        start <= end <= 8,
    ensures
        bits == bit_range_u8(value, start, end),
{
    value.get_bits(start as usize..end as usize)
}

/// Calls `BitField::get_bit` of the `bit_field` crate on a `u32`. The call
/// panics when `bit` is not a position of the field, so that is required.
/// The result is that crate's test of the value against a one shifted to
/// position `bit`.
#[verifier::external_body]
pub(crate) fn get_bit_u32(value: u32, bit: u32) -> (set: bool)
    requires
        bit < 32,
    ensures
        set == bit_of_u32(value, bit),
{
    value.get_bit(bit as usize)
}

/// Calls `BitField::get_bits` of the `bit_field` crate on a `u32` with the
/// range `start..end`. The call panics unless the range lies inside the
/// field. The result is what that crate computes: zero for an empty range,
/// else the value with its high bits shifted away to the left and its low
/// bits shifted away to the right.
#[verifier::external_body]
pub(crate) fn get_bits_u32(value: u32, start: u32, end: u32) -> (bits: u32)
    requires
        start < 32,
        start <= end <= 32,
    ensures
        bits == bit_range_u32(value, start, end),
{
    value.get_bits(start as usize..end as usize)
}

/// Calls `BitField::set_bits` of the `bit_field` crate on a copy of a `u64`
/// and returns the copy. The call panics unless the range lies inside the
/// field and `field` fits into it. The result is what that crate computes:
/// the old value with the range masked out, or-ed with `field` shifted to
/// the start of the range.
#[verifier::external_body]
pub(crate) fn set_bits_u64(value: u64, start: u32, end: u32, field: u64) -> (updated: u64)
    requires
        start < 64,
        start <= end <= 64,
        fits_bit_range_u64(field, start, end),
    ensures
        updated == with_bit_range_u64(value, start, end, field),
{
    let mut updated = value;
    updated.set_bits(start as usize..end as usize, field);
    updated
}

/// A bit range is the value shifted down to the start of the range and
/// masked to the width of the range.
pub proof fn lemma_bit_range_is_shift_and_mask(value: u32, start: u32, end: u32)
    requires
        start < end <= 32,
    ensures
        bit_range_u32(value, start, end) == (value >> start) & (((1u64 << ((end - start) as u64))
            - 1) as u32),
        bit_of_u32(value, start) == ((value >> start) & 1 == 1),
{
    assert(bit_range_u32(value, start, end) == (value >> start) & (((1u64 << ((end - start) as u64))
        - 1) as u32)) by (bit_vector)
        requires
            start < end <= 32,
    ;
    assert(bit_of_u32(value, start) == ((value >> start) & 1 == 1)) by (bit_vector)
        requires
            start < 32,
    ;
}

/// A 64-bit value put together from its two 32-bit halves: the high half
/// sits in bits 32..64.
pub open spec fn join_halves(low: u32, high: u32) -> u64 {
    (low as int + 0x1_0000_0000 * (high as int)) as u64
}

/// Joins the low and high 32-bit halves of a 64-bit firmware field.
pub fn join_u32_halves(low: u32, high: u32) -> (joined: u64)
    ensures
        joined == join_halves(low, high),
        joined == (low as u64) | ((high as u64) << 32),
{
    let wide_low: u64 = low as u64;
    let wide_high: u64 = high as u64;
    assert(fits_bit_range_u64(wide_high, 32, 64)) by (bit_vector)
        requires
            wide_high <= 0xffff_ffff,
    ;
    let joined: u64 = set_bits_u64(wide_low, 32, 64, wide_high);
    assert(with_bit_range_u64(wide_low, 32, 64, wide_high) == wide_low | (wide_high << 32)
        && wide_low | (wide_high << 32) == wide_low + 0x1_0000_0000 * wide_high) by (bit_vector)
        requires
            wide_low <= 0xffff_ffff,
            wide_high <= 0xffff_ffff,
    ;
    joined
}

} // verus!
