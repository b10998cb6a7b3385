//! Single bits and narrow fields inside one register byte.

use vstd::prelude::*;

verus! {

/// Whether bit `bit` of `value` is set.
pub open spec fn bit_is_set(value: u8, bit: u8) -> bool {
    (value >> bit) & 1 == 1
}

/// `current` with bit `bit` replaced by `data` and every other bit kept.
pub open spec fn with_bit(current: u8, bit: u8, data: bool) -> u8 {
    (current & !(1u8 << bit)) | ((if data { 1u8 } else { 0u8 }) << bit)
}

/// The bits of `value` under `mask`, moved down by `shift`.
pub open spec fn field_of(value: u8, mask: u8, shift: u8) -> u8 {
    (value & mask) >> shift
}

/// `current` with the bits under `mask` cleared and `data`, moved up by
/// `shift`, laid over the result. Bits of `data` that reach beyond the mask
/// are not cut off.
pub open spec fn with_field(current: u8, mask: u8, shift: u8, data: u8) -> u8 {
    (current & !mask) | (data << shift)
}

/// Tests one bit of a register value.
pub fn test_bit(value: u8, bit: u8) -> (set: bool)
    requires
        bit < 8,
    ensures
        set == bit_is_set(value, bit),
{
    assert(((value & (1u8 << bit)) == (1u8 << bit)) == ((value >> bit) & 1 == 1)) by (bit_vector)
        requires
            bit < 8,
    ;
    (value & (1u8 << bit)) == (1u8 << bit)
}

/// Replaces one bit of a register value.
pub fn replace_bit(current: u8, bit: u8, data: bool) -> (value: u8)
    requires
        bit < 8,
    ensures
        value == with_bit(current, bit, data),
{
    let raised: u8 = if data { 1 } else { 0 };
    current & !(1u8 << bit) | raised << bit
}

/// Extracts a field from a register value.
pub fn extract_field(value: u8, mask: u8, shift: u8) -> (data: u8)
    requires
        shift < 8,
    ensures
        data == field_of(value, mask, shift),
{
    (value & mask) >> shift
}

/// The three two-bit fields of the chip hold codes 0 to 3.
pub proof fn lemma_two_bit_fields(value: u8)
    ensures
        field_of(value, 0b00000011, 0) <= 0b11,
        field_of(value, 0b00001100, 2) <= 0b11,
        field_of(value, 0b11000000, 6) <= 0b11,
{
    assert((value & 0b00000011) >> 0u8 <= 0b11 && (value & 0b00001100) >> 2u8 <= 0b11 && (value
        & 0b11000000) >> 6u8 <= 0b11) by (bit_vector);
}

/// Lays a field over a register value.
pub fn replace_field(current: u8, mask: u8, shift: u8, data: u8) -> (value: u8)
    requires
        shift < 8,
    ensures
        value == with_field(current, mask, shift, data),
{
    (current & !mask) | (data << shift)
}

/// Replacing a bit makes it read back as written and leaves the seven other
/// bits of the byte as they were.
pub proof fn lemma_with_bit(current: u8, bit: u8, data: bool)
    requires
        bit < 8,
    ensures
        bit_is_set(with_bit(current, bit, data), bit) == data,
        forall|other: u8| other < 8 && other != bit ==>
            bit_is_set(#[trigger] with_bit(current, bit, data), other) == #[trigger] bit_is_set(current, other),
{
    let raised: u8 = if data { 1u8 } else { 0u8 };
    let updated = with_bit(current, bit, data);
    assert((((current & !(1u8 << bit)) | (raised << bit)) >> bit) & 1 == raised) by (bit_vector)
        requires
            bit < 8,
            raised <= 1,
    ;
    assert forall|other: u8| other < 8 && other != bit implies
        bit_is_set(updated, other) == bit_is_set(current, other) by {
        assert((((current & !(1u8 << bit)) | (raised << bit)) >> other) & 1 == (current >> other) & 1) by (bit_vector)
            requires
                bit < 8,
                other < 8,
                other != bit,
                raised <= 1,
        ;
    }
}

/// A field laid over a byte reads back as written, as long as the data fits
/// under the mask, and the bits outside the mask stay as they were.
pub proof fn lemma_with_field(current: u8, mask: u8, shift: u8, data: u8)
    requires
        shift < 8,
        (data << shift) & !mask == 0,
        ((data << shift) >> shift) == data,
    ensures
        field_of(with_field(current, mask, shift, data), mask, shift) == data,
        with_field(current, mask, shift, data) & !mask == current & !mask,
{
    assert((((current & !mask) | (data << shift)) & mask) >> shift == data) by (bit_vector)
        requires
            shift < 8,
            (data << shift) & !mask == 0,
            ((data << shift) >> shift) == data,
    ;
    assert(((current & !mask) | (data << shift)) & !mask == current & !mask) by (bit_vector)
        requires
            (data << shift) & !mask == 0,
    ;
}

/// A code of two bits laid over one of the chip's three two-bit fields
/// reads back as written, and the six bits outside the field stay as they
/// were.
pub proof fn lemma_two_bit_field_round_trip(current: u8, mask: u8, shift: u8, code: u8)
    requires
        code <= 0b11,
        (mask == 0b00000011 && shift == 0) || (mask == 0b00001100 && shift == 2) || (mask
            == 0b11000000 && shift == 6),
    ensures
        field_of(with_field(current, mask, shift, code), mask, shift) == code,
        with_field(current, mask, shift, code) & !mask == current & !mask,
{
    assert((code << shift) & !mask == 0 && ((code << shift) >> shift) == code) by (bit_vector)
        requires
            code <= 0b11,
            (mask == 0b00000011 && shift == 0) || (mask == 0b00001100 && shift == 2) || (mask
                == 0b11000000 && shift == 6),
    ;
    lemma_with_field(current, mask, shift, code);
}

} // verus!
