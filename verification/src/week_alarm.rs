//! The week alarm's set of days: a register byte with one bit per day, and
//! the same set as a fixed-capacity list of days, Sunday first.

use crate::bits::bit_is_set;
use crate::weekday::{from_week, to_week, weekday_decode, weekday_encode, Weekday};
use vstd::prelude::*;

verus! {

/// `heapless::Vec`, a vector that keeps its items in place and never holds
/// more than `N` of them.
#[verifier::external_type_specification]
#[verifier::external_body]
#[verifier::reject_recursive_types(T)]
pub struct ExHeaplessVec<T, const N: usize>(heapless::Vec<T, N>);

/// The days that a list holds, first to last.
pub uninterp spec fn weekdays_of(list: heapless::Vec<Weekday, 7>) -> Seq<Weekday>;

/// `heapless::Vec::new`: the new list holds nothing.
#[verifier::external_body]
fn new_list() -> (list: heapless::Vec<Weekday, 7>)
    ensures
        weekdays_of(list) == Seq::<Weekday>::empty(),
{
    heapless::Vec::new()
}

/// `heapless::Vec::push`: a list that holds fewer items than its capacity
/// of seven takes the item at its end; a full list stays as it is and
/// hands the item back.
#[verifier::external_body]
fn push_day(list: &mut heapless::Vec<Weekday, 7>, day: Weekday) -> (outcome: Result<(), Weekday>)
    ensures
        match outcome {
            Ok(_) => weekdays_of(*old(list)).len() < 7 && weekdays_of(*final(list)) == weekdays_of(
                *old(list),
            ).push(day),
            Err(back) => weekdays_of(*old(list)).len() >= 7 && back == day && weekdays_of(
                *final(list),
            ) == weekdays_of(*old(list)),
        },
{
    list.push(day)
}

/// `heapless::Vec::as_slice`: the slice holds the list's items in order.
#[verifier::external_body]
fn as_days(list: &heapless::Vec<Weekday, 7>) -> (days: &[Weekday])
    ensures
        days@ == weekdays_of(*list),
{
    list.as_slice()
}

/// The days whose bits are set among the lowest `count` bits of an alarm
/// byte, in the order of their bits.
pub open spec fn days_among(mask: u8, count: nat) -> Seq<Weekday>
    decreases count,
{
    if count == 0 {
        Seq::empty()
    } else {
        let earlier = days_among(mask, (count - 1) as nat);
        if bit_is_set(mask, (count - 1) as u8) {
            earlier.push(weekday_decode(1u8 << ((count - 1) as u8)))
        } else {
            earlier
        }
    }
}

/// The days that an alarm byte selects: one for each bit set among bits 0
/// to 6, Sunday first. Bit 7 selects no day.
pub open spec fn alarm_days(mask: u8) -> Seq<Weekday> {
    days_among(mask, 7)
}

/// The alarm byte that selects the given days: the bytes of the single days
/// laid over each other.
pub open spec fn alarm_mask(days: Seq<Weekday>) -> u8
    decreases days.len(),
{
    if days.len() == 0 {
        0
    } else {
        alarm_mask(days.drop_last()) | weekday_encode(days.last())
    }
}

/// No alarm byte selects more days than its bit positions.
pub proof fn lemma_days_among_len(mask: u8, count: nat)
    ensures
        days_among(mask, count).len() <= count,
    decreases count,
{
    if count > 0 {
        lemma_days_among_len(mask, (count - 1) as nat);
    }
}

/// The days that an alarm byte selects among its lowest `count` bits,
/// folded into a byte again, give those bits of the byte.
pub proof fn lemma_days_among_mask(mask: u8, count: nat)
    requires
        count <= 7,
    ensures
        alarm_mask(days_among(mask, count)) == mask & (((1u8 << (count as u8)) - 1) as u8),
    decreases count,
{
    let width = count as u8;
    if count == 0 {
        assert(mask & (((1u8 << 0u8) - 1) as u8) == 0) by (bit_vector);
    } else {
        let below = (count - 1) as u8;
        let bit = 1u8 << below;
        let earlier = days_among(mask, (count - 1) as nat);
        lemma_days_among_mask(mask, (count - 1) as nat);
        let low = mask & (((1u8 << below) - 1) as u8);
        assert((bit == 1 || bit == 2 || bit == 4 || bit == 8 || bit == 16 || bit == 32 || bit == 64)
            && mask & (((1u8 << width) - 1) as u8) == (if (mask >> below) & 1 == 1 {
            low | bit
        } else {
            low
        })) by (bit_vector)
            requires
                0 < width <= 7,
                below == width - 1,
                bit == 1u8 << below,
                low == mask & (((1u8 << below) - 1) as u8),
        ;
        if bit_is_set(mask, below) {
            let day = weekday_decode(bit);
            assert(earlier.push(day).drop_last() =~= earlier);
        }
    }
}

/// The days that an alarm byte selects, folded into a byte again, give the
/// byte without its bit 7.
pub proof fn lemma_alarm_days_round_trip(mask: u8)
    ensures
        alarm_mask(alarm_days(mask)) == mask & 0b01111111,
{
    lemma_days_among_mask(mask, 7);
    assert(((1u8 << 7u8) - 1) as u8 == 0b01111111u8) by (bit_vector);
}

/// Lists the days that an alarm byte selects.
pub fn days_in_mask(data: u8) -> (weekdays: heapless::Vec<Weekday, 7>)
    ensures
        weekdays_of(weekdays) == alarm_days(data),
{
    let mut weekdays = new_list();
    let mut i: u8 = 0;
    while i < 7
        invariant
            i <= 7,
            weekdays_of(weekdays) == days_among(data, i as nat),
        decreases 7 - i,
    {
        let bit: u8 = 1u8 << i;
        assert((bit == 1 || bit == 2 || bit == 4 || bit == 8 || bit == 16 || bit == 32 || bit == 64)
            && ((data & bit == bit) <==> ((data >> i) & 1 == 1))) by (bit_vector)
            requires
                i < 7,
                bit == 1u8 << i,
        ;
        if (data & bit) == bit {
            proof {
                lemma_days_among_len(data, i as nat);
            }
            let pushed = push_day(&mut weekdays, from_week(bit));
            assert(pushed is Ok);
        }
        i = i + 1;
    }
    weekdays
}

/// Folds a list of days into the alarm byte that selects them.
pub fn mask_of_days(data: &heapless::Vec<Weekday, 7>) -> (value: u8)
    ensures
        value == alarm_mask(weekdays_of(*data)),
{
    let days = as_days(data);
    let mut value: u8 = 0;
    let mut i: usize = 0;
    while i < days.len()
        invariant
            i <= days@.len(),
            value == alarm_mask(days@.take(i as int)),
        decreases days@.len() - i,
    {
        assert(days@.take(i + 1).drop_last() =~= days@.take(i as int));
        value = value | to_week(days[i]);
        i = i + 1;
    }
    assert(days@.take(i as int) =~= days@);
    value
}

} // verus!
