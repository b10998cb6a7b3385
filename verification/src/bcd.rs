//! Binary-coded decimal: one byte holds two decimal digits, tens in the high
//! nibble and units in the low nibble.

use vstd::prelude::*;

verus! {

/// The number that a BCD byte stands for: ten times the high nibble plus the
/// low nibble. Nibbles above nine are not rejected; they count as digits
/// larger than nine.
pub open spec fn bcd_decode(byte: u8) -> u8 {
    ((byte / 16) * 10 + byte % 16) as u8
}

/// The BCD byte of a number: the tens digit in the high nibble, the units
/// digit in the low nibble. A tens digit that does not fit in four bits
/// loses its upper bits.
pub open spec fn bcd_encode(value: u8) -> u8 {
    (((value / 10) % 16) * 16 + value % 10) as u8
}

/// Converts a BCD byte to the number it stands for.
pub fn from_bcd(data: u8) -> (value: u8)
    ensures
        value == bcd_decode(data),
{
    assert(data >> 4 == data / 16 && data & 0x0F == data % 16) by (bit_vector);
    (data >> 4) * 10 + (data & 0x0F)
}

/// Converts a number to its BCD byte.
pub fn to_bcd(data: u8) -> (byte: u8)
    ensures
        byte == bcd_encode(data),
{
    let tens: u8 = data / 10;
    let units: u8 = data % 10;
    assert((tens << 4) | units == (tens % 16) * 16 + units) by (bit_vector)
        requires
            units < 10,
    ;
    (tens << 4) | units
}

/// Every number below one hundred survives encoding followed by decoding.
pub proof fn lemma_bcd_round_trip(value: u8)
    requires
        value <= 99,
    ensures
        bcd_decode(bcd_encode(value)) == value,
{
}

/// Among numbers below one hundred, a larger number has a larger BCD byte.
pub proof fn lemma_bcd_encode_ordered(smaller: u8, larger: u8)
    requires
        smaller <= larger <= 99,
    ensures
        bcd_encode(smaller) <= bcd_encode(larger),
{
}

} // verus!
