//! The alarm registers: minute, hour, and the register that holds either
//! the days of the week or the day of the month of the alarm.

use crate::access::{decoded_read, register_write};
use crate::bcd::{
    bcd_decode, bcd_encode, from_bcd, lemma_bcd_encode_ordered, lemma_bcd_round_trip, to_bcd,
};
use crate::bits::bit_is_set;
use crate::driver::Rx8900;
use crate::registers::RegisterTable;
use crate::transport::Transport;
use crate::week_alarm::{alarm_days, alarm_mask, days_in_mask, mask_of_days, weekdays_of};
use crate::weekday::Weekday;
use vstd::prelude::*;

verus! {

/// The position of the bit that goes with each alarm value and is handed
/// out as the alarm's enable state.
pub const AE_BIT: u8 = 7;

/// The bits of the minute alarm register that hold the minute.
pub const MINUTE_ALARM_MASK: u8 = 0b01111111;

/// The bits of the hour alarm register that hold the hour.
pub const HOUR_ALARM_MASK: u8 = 0b00111111;

/// The bits of the day alarm register that hold the day of the month.
pub const DAY_ALARM_MASK: u8 = 0b01111111;

/// The byte of an alarm register: the BCD digits of the value under the
/// mask, with bit 7 laid over them if the alarm is enabled.
pub open spec fn alarm_byte(value: u8, mask: u8, enabled: bool) -> u8 {
    bcd_encode(value & mask) | if enabled {
        0b10000000u8
    } else {
        0u8
    }
}

/// Makes the byte of an alarm register.
pub fn alarm_register(data: u8, mask: u8, enabled: bool) -> (byte: u8)
    ensures
        byte == alarm_byte(data, mask, enabled),
{
    let flag: u8 = if enabled {
        1
    } else {
        0
    };
    assert(1u8 << 7u8 == 0b10000000u8 && 0u8 << 7u8 == 0u8) by (bit_vector);
    to_bcd(data & mask) | flag << AE_BIT
}

/// An alarm byte made of a minute, an hour or a day of the month is read as
/// that value under the same mask, and its bit 7 is read as the enable
/// state.
pub proof fn lemma_alarm_byte_round_trip(value: u8, mask: u8, enabled: bool)
    requires
        (mask == 0b01111111 && value <= 59) || (mask == 0b00111111 && value <= 23),
    ensures
        bcd_decode(alarm_byte(value, mask, enabled) & mask) == value,
        bit_is_set(alarm_byte(value, mask, enabled), AE_BIT) == enabled,
{
    let digits = bcd_encode(value & mask);
    let flag = if enabled {
        0b10000000u8
    } else {
        0u8
    };
    assert(value & mask == value) by (bit_vector)
        requires
            (mask == 0b01111111 && value <= 59) || (mask == 0b00111111 && value <= 23),
    ;
    lemma_bcd_round_trip(value);
    lemma_bcd_encode_ordered(value, if mask == 0b01111111 {
        59
    } else {
        23
    });
    assert((digits | flag) & mask == digits && (((digits | flag) >> 7u8) & 1 == 1) == enabled)
        by (bit_vector)
        requires
            (mask == 0b01111111 && digits <= 0x59) || (mask == 0b00111111 && digits <= 0x23),
            flag == if enabled {
                0b10000000u8
            } else {
                0u8
            },
    ;
}

impl<I2C: Transport> Rx8900<I2C> {
    /// Reads the minute of the minute alarm.
    pub fn min_alarm(&mut self) -> (outcome: Result<u8, I2C::Error>)
        ensures
            decoded_read(
                old(self)@,
                RegisterTable::CompatibleMinAlarm,
                |raw: u8| bcd_decode(raw & MINUTE_ALARM_MASK),
                final(self)@,
                outcome,
            ),
    {
        let data = self.read_register(RegisterTable::CompatibleMinAlarm)?;
        Ok(from_bcd(data & MINUTE_ALARM_MASK))
    }

    /// Reads the enable bit of the minute alarm.
    pub fn min_alarm_enabled(&mut self) -> (outcome: Result<bool, I2C::Error>)
        ensures
            decoded_read(
                old(self)@,
                RegisterTable::CompatibleMinAlarm,
                |raw: u8| bit_is_set(raw, AE_BIT),
                final(self)@,
                outcome,
            ),
    {
        self.read_register_1bit(RegisterTable::CompatibleMinAlarm, AE_BIT)
    }

    /// Reads the hour of the hour alarm.
    pub fn hour_alarm(&mut self) -> (outcome: Result<u8, I2C::Error>)
        ensures
            decoded_read(
                old(self)@,
                RegisterTable::CompatibleHourAlarm,
                |raw: u8| bcd_decode(raw & HOUR_ALARM_MASK),
                final(self)@,
                outcome,
            ),
    {
        let data = self.read_register(RegisterTable::CompatibleHourAlarm)?;
        Ok(from_bcd(data & HOUR_ALARM_MASK))
    }

    /// Reads the enable bit of the hour alarm.
    pub fn hour_alarm_enabled(&mut self) -> (outcome: Result<bool, I2C::Error>)
        ensures
            decoded_read(
                old(self)@,
                RegisterTable::CompatibleHourAlarm,
                |raw: u8| bit_is_set(raw, AE_BIT),
                final(self)@,
                outcome,
            ),
    {
        self.read_register_1bit(RegisterTable::CompatibleHourAlarm, AE_BIT)
    }

    /// Reads the days of the week on which the week alarm goes off, Sunday
    /// first.
    pub fn week_alarm(&mut self) -> (outcome: Result<heapless::Vec<Weekday, 7>, I2C::Error>)
        ensures
            decoded_read(
                old(self)@,
                RegisterTable::CompatibleWeekDayAlarm,
                |raw: u8| alarm_days(raw),
                final(self)@,
                match outcome {
                    Ok(weekdays) => Ok(weekdays_of(weekdays)),
                    Err(e) => Err(e),
                },
            ),
    {
        let data = self.read_register(RegisterTable::CompatibleWeekDayAlarm)?;
        Ok(days_in_mask(data))
    }

    /// Reads the enable bit of the week alarm.
    pub fn week_alarm_enabled(&mut self) -> (outcome: Result<bool, I2C::Error>)
        ensures
            decoded_read(
                old(self)@,
                RegisterTable::CompatibleWeekDayAlarm,
                |raw: u8| bit_is_set(raw, AE_BIT),
                final(self)@,
                outcome,
            ),
    {
        self.read_register_1bit(RegisterTable::CompatibleWeekDayAlarm, AE_BIT)
    }

    /// Reads the day of the month of the day alarm.
    pub fn day_alarm(&mut self) -> (outcome: Result<u8, I2C::Error>)
        ensures
            decoded_read(
                old(self)@,
                RegisterTable::CompatibleWeekDayAlarm,
                |raw: u8| bcd_decode(raw & DAY_ALARM_MASK),
                final(self)@,
                outcome,
            ),
    {
        let data = self.read_register(RegisterTable::CompatibleWeekDayAlarm)?;
        Ok(from_bcd(data & DAY_ALARM_MASK))
    }

    /// Reads the enable bit of the day alarm.
    pub fn day_alarm_enabled(&mut self) -> (outcome: Result<bool, I2C::Error>)
        ensures
            decoded_read(
                old(self)@,
                RegisterTable::CompatibleWeekDayAlarm,
                |raw: u8| bit_is_set(raw, AE_BIT),
                final(self)@,
                outcome,
            ),
    {
        self.read_register_1bit(RegisterTable::CompatibleWeekDayAlarm, AE_BIT)
    }

    /// Writes the minute alarm: its minute and its enable bit.
    pub fn set_min_alarm(&mut self, data: u8, enabled: bool) -> (outcome: Result<(), I2C::Error>)
        ensures
            register_write(
                old(self)@,
                RegisterTable::CompatibleMinAlarm,
                alarm_byte(data, MINUTE_ALARM_MASK, enabled),
                final(self)@,
                outcome,
            ),
    {
        self.write_register(
            RegisterTable::CompatibleMinAlarm,
            alarm_register(data, MINUTE_ALARM_MASK, enabled),
        )
    }

    /// Writes the hour alarm: its hour and its enable bit.
    pub fn set_hour_alarm(&mut self, data: u8, enabled: bool) -> (outcome: Result<(), I2C::Error>)
        ensures
            register_write(
                old(self)@,
                RegisterTable::CompatibleHourAlarm,
                alarm_byte(data, HOUR_ALARM_MASK, enabled),
                final(self)@,
                outcome,
            ),
    {
        self.write_register(
            RegisterTable::CompatibleHourAlarm,
            alarm_register(data, HOUR_ALARM_MASK, enabled),
        )
    }

    /// Writes the days of the week on which the week alarm goes off. Bit 7
    /// of the register is written clear.
    pub fn set_week_alarm(&mut self, data: &heapless::Vec<Weekday, 7>) -> (outcome: Result<
        (),
        I2C::Error,
    >)
        ensures
            register_write(
                old(self)@,
                RegisterTable::CompatibleWeekDayAlarm,
                alarm_mask(weekdays_of(*data)),
                final(self)@,
                outcome,
            ),
    {
        let value = mask_of_days(data);
        self.write_register(RegisterTable::CompatibleWeekDayAlarm, value)
    }

    /// Writes the day alarm: its day of the month and its enable bit.
    pub fn set_day_alarm(&mut self, data: u8, enabled: bool) -> (outcome: Result<(), I2C::Error>)
        ensures
            register_write(
                old(self)@,
                RegisterTable::CompatibleWeekDayAlarm,
                alarm_byte(data, DAY_ALARM_MASK, enabled),
                final(self)@,
                outcome,
            ),
    {
        self.write_register(
            RegisterTable::CompatibleWeekDayAlarm,
            alarm_register(data, DAY_ALARM_MASK, enabled),
        )
    }
}

} // verus!
