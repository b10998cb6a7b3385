//! The time and date registers: seconds to year, the day of the week, the
//! byte of general-purpose memory, and the calendar value that the six
//! time and date registers make up.

use crate::access::{
    decoded_read, lemma_read_sequence_done, lemma_read_sequence_step, lemma_write_sequence_step,
    read_sequence, register_read, register_write, write_sequence, RegisterWrite,
};
use crate::bcd::{bcd_decode, bcd_encode, from_bcd, to_bcd};
use crate::calendar::{
    composed, is_calendar_date, lemma_missing_time_is_midnight, view_of, DateTime, DateTimeView,
};
use crate::driver::Rx8900;
use crate::registers::RegisterTable;
use crate::transport::Transport;
use crate::weekday::{
    day_bits_set, is_weekday_mask, lemma_weekday_mask_is_one_hot, to_week, try_from_week,
    weekday_decode, weekday_encode, Weekday,
};
use vstd::prelude::*;

verus! {

/// The bits of the seconds register that hold the seconds.
pub const SECOND_MASK: u8 = 0b01111111;

/// The bits of the minutes register that hold the minutes.
pub const MINUTE_MASK: u8 = 0b01111111;

/// The bits of the hours register that hold the hours.
pub const HOUR_MASK: u8 = 0b00111111;

/// The bits of the day register that hold the day of the month.
pub const DAY_MASK: u8 = 0b00111111;

/// The bits of the month register that hold the month.
pub const MONTH_MASK: u8 = 0b00011111;

/// The registers that make up the date and time, in the order in which
/// they are read.
pub open spec fn datetime_registers() -> Seq<RegisterTable> {
    seq![
        RegisterTable::CompatibleSEC,
        RegisterTable::CompatibleMIN,
        RegisterTable::CompatibleHOUR,
        RegisterTable::CompatibleDAY,
        RegisterTable::CompatibleMONTH,
        RegisterTable::CompatibleYEAR,
    ]
}

/// The calendar value that the bytes of the six date and time registers
/// stand for, the bytes in the order of `datetime_registers`. Each byte is
/// decoded whole: a bit set above a field makes the field's value too large
/// to exist.
pub open spec fn composed_of(raw: Seq<u8>) -> Option<DateTimeView> {
    composed(
        bcd_decode(raw[5]),
        bcd_decode(raw[4]),
        bcd_decode(raw[3]),
        bcd_decode(raw[2]),
        bcd_decode(raw[1]),
        bcd_decode(raw[0]),
    )
}

/// The register writes that store a calendar value, in the order in which
/// they are made: year within the century, month, day, day of the week,
/// hour, minute, second.
pub open spec fn datetime_writes(data: DateTimeView) -> Seq<RegisterWrite> {
    seq![
        RegisterWrite {
            register: RegisterTable::CompatibleYEAR,
            value: bcd_encode((data.year % 100) as u8),
        },
        RegisterWrite { register: RegisterTable::CompatibleMONTH, value: bcd_encode(data.month as u8) },
        RegisterWrite { register: RegisterTable::CompatibleDAY, value: bcd_encode(data.day as u8) },
        RegisterWrite {
            register: RegisterTable::CompatibleWEEK,
            value: weekday_encode(data.weekday),
        },
        RegisterWrite { register: RegisterTable::CompatibleHOUR, value: bcd_encode(data.hour as u8) },
        RegisterWrite {
            register: RegisterTable::CompatibleMIN,
            value: bcd_encode(data.minute as u8),
        },
        RegisterWrite {
            register: RegisterTable::CompatibleSEC,
            value: bcd_encode(data.second as u8),
        },
    ]
}

/// The day that a weekday register byte names, if it names one.
pub open spec fn weekday_of_register(raw: u8) -> Option<Weekday> {
    if is_weekday_mask(raw) {
        Some(weekday_decode(raw))
    } else {
        None
    }
}

/// Date and time registers whose date exists and whose hour, minute or
/// second, decoded whole, is out of range are read as midnight of that
/// date.
pub proof fn lemma_missing_time_reads_as_midnight(raw: Seq<u8>)
    requires
        is_calendar_date(
            2000 + bcd_decode(raw[5]),
            bcd_decode(raw[4]) as int,
            bcd_decode(raw[3]) as int,
        ),
        bcd_decode(raw[2]) >= 24 || bcd_decode(raw[1]) >= 60 || bcd_decode(raw[0]) >= 60,
    ensures
        composed_of(raw) matches Some(found) && found.year == 2000 + bcd_decode(raw[5])
            && found.month == bcd_decode(raw[4]) && found.day == bcd_decode(raw[3]) && found.hour
            == 0 && found.minute == 0 && found.second == 0,
{
    lemma_missing_time_is_midnight(
        bcd_decode(raw[5]),
        bcd_decode(raw[4]),
        bcd_decode(raw[3]),
        bcd_decode(raw[2]),
        bcd_decode(raw[1]),
        bcd_decode(raw[0]),
    );
}

/// A weekday register byte whose number of bits set among bits 0 to 6 is
/// not one, or whose bit 7 is set, is read as no day.
pub proof fn lemma_week_rejects_malformed(raw: u8)
    requires
        day_bits_set(raw) != 1 || raw & 0b10000000 != 0,
    ensures
        weekday_of_register(raw) is None,
{
    lemma_weekday_mask_is_one_hot(raw);
}

impl<I2C: Transport> Rx8900<I2C> {
    /// Reads the seconds.
    pub fn sec(&mut self) -> (outcome: Result<u8, I2C::Error>)
        ensures
            decoded_read(
                old(self)@,
                RegisterTable::CompatibleSEC,
                |raw: u8| bcd_decode(raw & SECOND_MASK),
                final(self)@,
                outcome,
            ),
    {
        let data = self.read_register(RegisterTable::CompatibleSEC)?;
        Ok(from_bcd(data & SECOND_MASK))
    }

    /// Reads the minutes.
    pub fn min(&mut self) -> (outcome: Result<u8, I2C::Error>)
        ensures
            decoded_read(
                old(self)@,
                RegisterTable::CompatibleMIN,
                |raw: u8| bcd_decode(raw & MINUTE_MASK),
                final(self)@,
                outcome,
            ),
    {
        let data = self.read_register(RegisterTable::CompatibleMIN)?;
        Ok(from_bcd(data & MINUTE_MASK))
    }

    /// Reads the hours.
    pub fn hour(&mut self) -> (outcome: Result<u8, I2C::Error>)
        ensures
            decoded_read(
                old(self)@,
                RegisterTable::CompatibleHOUR,
                |raw: u8| bcd_decode(raw & HOUR_MASK),
                final(self)@,
                outcome,
            ),
    {
        let data = self.read_register(RegisterTable::CompatibleHOUR)?;
        Ok(from_bcd(data & HOUR_MASK))
    }

    /// Reads the day of the week. A register byte that names no single day
    /// is answered with `None`.
    pub fn week(&mut self) -> (outcome: Result<Option<Weekday>, I2C::Error>)
        ensures
            decoded_read(
                old(self)@,
                RegisterTable::CompatibleWEEK,
                |raw: u8| weekday_of_register(raw),
                final(self)@,
                outcome,
            ),
    {
        let data = self.read_register(RegisterTable::CompatibleWEEK)?;
        Ok(try_from_week(data))
    }

    /// Reads the day of the month.
    pub fn day(&mut self) -> (outcome: Result<u8, I2C::Error>)
        ensures
            decoded_read(
                old(self)@,
                RegisterTable::CompatibleDAY,
                |raw: u8| bcd_decode(raw & DAY_MASK),
                final(self)@,
                outcome,
            ),
    {
        let data = self.read_register(RegisterTable::CompatibleDAY)?;
        Ok(from_bcd(data & DAY_MASK))
    }

    /// Reads the month.
    pub fn month(&mut self) -> (outcome: Result<u8, I2C::Error>)
        ensures
            decoded_read(
                old(self)@,
                RegisterTable::CompatibleMONTH,
                |raw: u8| bcd_decode(raw & MONTH_MASK),
                final(self)@,
                outcome,
            ),
    {
        let data = self.read_register(RegisterTable::CompatibleMONTH)?;
        Ok(from_bcd(data & MONTH_MASK))
    }

    /// Reads the year within the century.
    pub fn year(&mut self) -> (outcome: Result<u8, I2C::Error>)
        ensures
            decoded_read(
                old(self)@,
                RegisterTable::CompatibleYEAR,
                |raw: u8| bcd_decode(raw),
                final(self)@,
                outcome,
            ),
    {
        let data = self.read_register(RegisterTable::CompatibleYEAR)?;
        Ok(from_bcd(data))
    }

    /// Reads the byte of general-purpose memory.
    pub fn ram(&mut self) -> (outcome: Result<u8, I2C::Error>)
        ensures
            register_read(old(self)@, RegisterTable::CompatibleRAM, final(self)@, outcome),
    {
        self.read_register(RegisterTable::CompatibleRAM)
    }

    /// Writes the seconds.
    pub fn set_sec(&mut self, data: u8) -> (outcome: Result<(), I2C::Error>)
        ensures
            register_write(
                old(self)@,
                RegisterTable::CompatibleSEC,
                bcd_encode(data & SECOND_MASK),
                final(self)@,
                outcome,
            ),
    {
        self.write_register(RegisterTable::CompatibleSEC, to_bcd(data & SECOND_MASK))
    }

    /// Writes the minutes.
    pub fn set_min(&mut self, data: u8) -> (outcome: Result<(), I2C::Error>)
        ensures
            register_write(
                old(self)@,
                RegisterTable::CompatibleMIN,
                bcd_encode(data & MINUTE_MASK),
                final(self)@,
                outcome,
            ),
    {
        self.write_register(RegisterTable::CompatibleMIN, to_bcd(data & MINUTE_MASK))
    }

    /// Writes the hours.
    pub fn set_hour(&mut self, data: u8) -> (outcome: Result<(), I2C::Error>)
        ensures
            register_write(
                old(self)@,
                RegisterTable::CompatibleHOUR,
                bcd_encode(data & HOUR_MASK),
                final(self)@,
                outcome,
            ),
    {
        self.write_register(RegisterTable::CompatibleHOUR, to_bcd(data & HOUR_MASK))
    }

    /// Writes the day of the week.
    pub fn set_week(&mut self, data: Weekday) -> (outcome: Result<(), I2C::Error>)
        ensures
            register_write(
                old(self)@,
                RegisterTable::CompatibleWEEK,
                weekday_encode(data),
                final(self)@,
                outcome,
            ),
    {
        self.write_register(RegisterTable::CompatibleWEEK, to_week(data))
    }

    /// Writes the day of the month.
    pub fn set_day(&mut self, data: u8) -> (outcome: Result<(), I2C::Error>)
        ensures
            register_write(
                old(self)@,
                RegisterTable::CompatibleDAY,
                bcd_encode(data & DAY_MASK),
                final(self)@,
                outcome,
            ),
    {
        self.write_register(RegisterTable::CompatibleDAY, to_bcd(data & DAY_MASK))
    }

    /// Writes the month.
    pub fn set_month(&mut self, data: u8) -> (outcome: Result<(), I2C::Error>)
        ensures
            register_write(
                old(self)@,
                RegisterTable::CompatibleMONTH,
                bcd_encode(data & MONTH_MASK),
                final(self)@,
                outcome,
            ),
    {
        self.write_register(RegisterTable::CompatibleMONTH, to_bcd(data & MONTH_MASK))
    }

    /// Writes the year within the century.
    pub fn set_year(&mut self, data: u8) -> (outcome: Result<(), I2C::Error>)
        ensures
            register_write(
                old(self)@,
                RegisterTable::CompatibleYEAR,
                bcd_encode(data),
                final(self)@,
                outcome,
            ),
    {
        self.write_register(RegisterTable::CompatibleYEAR, to_bcd(data))
    }

    /// Writes the byte of general-purpose memory.
    pub fn set_ram(&mut self, data: u8) -> (outcome: Result<(), I2C::Error>)
        ensures
            register_write(old(self)@, RegisterTable::CompatibleRAM, data, final(self)@, outcome),
    {
        self.write_register(RegisterTable::CompatibleRAM, data)
    }

    /// Reads the date and time: seconds, minutes, hours, day, month and
    /// year, one register after the other, stopping at the first read that
    /// fails. Every byte is decoded whole, without the mask of the single
    /// accessor. The year register counts from 2000. A time that does not
    /// exist is read as midnight; a date that does not exist is answered
    /// with `None`. The day of the week is the date's own, not the weekday
    /// register's.
    pub fn datetime(&mut self) -> (outcome: Result<Option<DateTime>, I2C::Error>)
        ensures
            match outcome {
                Ok(found) => exists|raw: Seq<u8>| #[trigger]
                    read_sequence(old(self)@, datetime_registers(), final(self)@, Ok(raw))
                        && view_of(found) == composed_of(raw),
                Err(e) => read_sequence(old(self)@, datetime_registers(), final(self)@, Err(e)),
            },
    {
        let ghost start = self@;
        let ghost registers = datetime_registers();
        let ghost mut bytes: Seq<u8> = Seq::empty();
        let ghost mut byte: u8 = 0;
        let ghost mut before = self@;

        let sec = self.read_register(RegisterTable::CompatibleSEC);
        proof {
            byte = lemma_read_sequence_step(
                start,
                registers,
                0,
                bytes,
                before,
                |raw: u8| raw,
                self@,
                sec,
            );
            bytes = bytes.push(byte);
            before = self@;
        }
        let sec = from_bcd(sec?);

        let min = self.read_register(RegisterTable::CompatibleMIN);
        proof {
            byte = lemma_read_sequence_step(
                start,
                registers,
                1,
                bytes,
                before,
                |raw: u8| raw,
                self@,
                min,
            );
            bytes = bytes.push(byte);
            before = self@;
        }
        let min = from_bcd(min?);

        let hour = self.read_register(RegisterTable::CompatibleHOUR);
        proof {
            byte = lemma_read_sequence_step(
                start,
                registers,
                2,
                bytes,
                before,
                |raw: u8| raw,
                self@,
                hour,
            );
            bytes = bytes.push(byte);
            before = self@;
        }
        let hour = from_bcd(hour?);

        let day = self.read_register(RegisterTable::CompatibleDAY);
        proof {
            byte = lemma_read_sequence_step(
                start,
                registers,
                3,
                bytes,
                before,
                |raw: u8| raw,
                self@,
                day,
            );
            bytes = bytes.push(byte);
            before = self@;
        }
        let day = from_bcd(day?);

        let month = self.read_register(RegisterTable::CompatibleMONTH);
        proof {
            byte = lemma_read_sequence_step(
                start,
                registers,
                4,
                bytes,
                before,
                |raw: u8| raw,
                self@,
                month,
            );
            bytes = bytes.push(byte);
            before = self@;
        }
        let month = from_bcd(month?);

        let yy = self.read_register(RegisterTable::CompatibleYEAR);
        proof {
            byte = lemma_read_sequence_step(
                start,
                registers,
                5,
                bytes,
                before,
                |raw: u8| raw,
                self@,
                yy,
            );
            bytes = bytes.push(byte);
        }
        let yy = from_bcd(yy?);

        proof {
            lemma_read_sequence_done(start, registers, bytes, self@);
        }
        Ok(DateTime::compose(yy, month, day, hour, min, sec))
    }

    /// Stores a date and time: year within the century, month, day, day of
    /// the week, hour, minute and second, one register after the other,
    /// stopping at the first write that fails. Registers written before a
    /// failure keep their new bytes.
    pub fn set_datetime(&mut self, data: DateTime) -> (outcome: Result<(), I2C::Error>)
        ensures
            write_sequence(old(self)@, datetime_writes(data@), final(self)@, outcome),
    {
        let ghost start = self@;
        let ghost writes = datetime_writes(data@);
        let ghost mut before = self@;
        let year = data.year_in_century();
        let month = data.month();
        let day = data.day();
        let hour = data.hour();
        let minute = data.minute();
        let second = data.second();
        assert(month & MONTH_MASK == month && day & DAY_MASK == day && hour & HOUR_MASK == hour
            && minute & MINUTE_MASK == minute && second & SECOND_MASK == second) by (bit_vector)
            requires
                month <= 12,
                day <= 31,
                hour < 24,
                minute < 60,
                second < 60,
        ;

        let written = self.set_year(year);
        proof {
            lemma_write_sequence_step(start, writes, 0, before, self@, written);
            before = self@;
        }
        written?;

        let written = self.set_month(month);
        proof {
            lemma_write_sequence_step(start, writes, 1, before, self@, written);
            before = self@;
        }
        written?;

        let written = self.set_day(day);
        proof {
            lemma_write_sequence_step(start, writes, 2, before, self@, written);
            before = self@;
        }
        written?;

        let written = self.set_week(data.weekday());
        proof {
            lemma_write_sequence_step(start, writes, 3, before, self@, written);
            before = self@;
        }
        written?;

        let written = self.set_hour(hour);
        proof {
            lemma_write_sequence_step(start, writes, 4, before, self@, written);
            before = self@;
        }
        written?;

        let written = self.set_min(minute);
        proof {
            lemma_write_sequence_step(start, writes, 5, before, self@, written);
            before = self@;
        }
        written?;

        let written = self.set_sec(second);
        proof {
            lemma_write_sequence_step(start, writes, 6, before, self@, written);
        }
        written?;
        Ok(())
    }
}

} // verus!
