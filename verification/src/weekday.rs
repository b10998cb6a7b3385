//! Days of the week and their one-hot register encoding: bit 0 stands for
//! Sunday, bit 6 for Saturday.

use vstd::prelude::*;

verus! {

/// A day of the week.
#[derive(Clone, Copy, Debug, PartialEq, Eq, Structural)]
pub enum Weekday {
    Mon,
    Tue,
    Wed,
    Thu,
    Fri,
    Sat,
    Sun,
}

/// The register byte of a day: only the day's own bit is set, Sunday's at
/// position 0 and Saturday's at position 6.
pub open spec fn weekday_encode(day: Weekday) -> u8 {
    match day {
        Weekday::Sun => 0b00000001,
        Weekday::Mon => 0b00000010,
        Weekday::Tue => 0b00000100,
        Weekday::Wed => 0b00001000,
        Weekday::Thu => 0b00010000,
        Weekday::Fri => 0b00100000,
        Weekday::Sat => 0b01000000,
    }
}

/// Whether a register byte names exactly one day.
pub open spec fn is_weekday_mask(data: u8) -> bool {
    data == 0b00000001 || data == 0b00000010 || data == 0b00000100 || data == 0b00001000 || data
        == 0b00010000 || data == 0b00100000 || data == 0b01000000
}

/// The day that a register byte names. Only meaningful for the seven bytes
/// that `is_weekday_mask` accepts.
pub open spec fn weekday_decode(data: u8) -> Weekday {
    if data == 0b00000001 {
        Weekday::Sun
    } else if data == 0b00000010 {
        Weekday::Mon
    } else if data == 0b00000100 {
        Weekday::Tue
    } else if data == 0b00001000 {
        Weekday::Wed
    } else if data == 0b00010000 {
        Weekday::Thu
    } else if data == 0b00100000 {
        Weekday::Fri
    } else {
        Weekday::Sat
    }
}

/// The number of bits set among bits 0 to 6 of a byte, the bits that stand
/// for days.
pub open spec fn day_bits_set(data: u8) -> u8 {
    ((data & 1) + ((data >> 1) & 1) + ((data >> 2) & 1) + ((data >> 3) & 1) + ((data >> 4) & 1) + ((
    data >> 5) & 1) + ((data >> 6) & 1)) as u8
}

/// Decodes a weekday register byte. Only the seven one-hot bytes are
/// accepted; any other byte is a broken promise of the caller. So no byte
/// with no day bit or with several day bits set is ever given a day.
pub fn from_week(data: u8) -> (day: Weekday)
    requires
        is_weekday_mask(data),
    ensures
        day == weekday_decode(data),
        day_bits_set(data) == 1,
        weekday_encode(day) == data,
{
    proof {
        lemma_weekday_mask_is_one_hot(data);
    }
    if data == 0b00000001 {
        Weekday::Sun
    } else if data == 0b00000010 {
        Weekday::Mon
    } else if data == 0b00000100 {
        Weekday::Tue
    } else if data == 0b00001000 {
        Weekday::Wed
    } else if data == 0b00010000 {
        Weekday::Thu
    } else if data == 0b00100000 {
        Weekday::Fri
    } else {
        Weekday::Sat
    }
}

/// Decodes a weekday register byte, telling apart the bytes that name no
/// single day: a byte with no day bit set, with several day bits set, or
/// with bit 7 set has no day.
pub fn try_from_week(data: u8) -> (day: Option<Weekday>)
    ensures
        day == if is_weekday_mask(data) {
            Some(weekday_decode(data))
        } else {
            None
        },
        day_bits_set(data) != 1 ==> day is None,
        data & 0b10000000 != 0 ==> day is None,
{
    proof {
        lemma_weekday_mask_is_one_hot(data);
    }
    if data == 0b00000001 || data == 0b00000010 || data == 0b00000100 || data == 0b00001000 || data
        == 0b00010000 || data == 0b00100000 || data == 0b01000000 {
        Some(from_week(data))
    } else {
        None
    }
}

/// Encodes a day as its weekday register byte.
pub fn to_week(data: Weekday) -> (mask: u8)
    ensures
        mask == weekday_encode(data),
{
    match data {
        Weekday::Sun => 0b00000001,
        Weekday::Mon => 0b00000010,
        Weekday::Tue => 0b00000100,
        Weekday::Wed => 0b00001000,
        Weekday::Thu => 0b00010000,
        Weekday::Fri => 0b00100000,
        Weekday::Sat => 0b01000000,
    }
}

/// Every day survives encoding followed by decoding.
pub proof fn lemma_weekday_round_trip(day: Weekday)
    ensures
        is_weekday_mask(weekday_encode(day)),
        weekday_decode(weekday_encode(day)) == day,
{
}

/// Every well-formed byte survives decoding followed by encoding.
pub proof fn lemma_weekday_mask_round_trip(data: u8)
    requires
        is_weekday_mask(data),
    ensures
        weekday_encode(weekday_decode(data)) == data,
{
}

/// The bytes that name a day are exactly those with one bit set among bits
/// 0 to 6 and bit 7 clear.
pub proof fn lemma_weekday_mask_is_one_hot(data: u8)
    ensures
        is_weekday_mask(data) <==> (day_bits_set(data) == 1 && data & 0b10000000 == 0),
{
    assert((day_bits_set(data) == 1 && data & 0b10000000 == 0) <==> (data == 1 || data == 2 || data
        == 4 || data == 8 || data == 16 || data == 32 || data == 64)) by (bit_vector);
}

/// A byte whose number of bits set among bits 0 to 6 is not one names no
/// day: `from_week` does not admit it, and `try_from_week` and the driver's
/// `week` answer it with `None`.
pub proof fn lemma_weekday_rejects_malformed(data: u8)
    requires
        day_bits_set(data) != 1,
    ensures
        !is_weekday_mask(data),
        forall|day: Weekday| weekday_encode(day) != data,
{
    lemma_weekday_mask_is_one_hot(data);
}

} // verus!
