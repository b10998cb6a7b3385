//! The sixteen-bit timer counter, held in two registers: the low byte at
//! the lower address, the high byte at the higher one.

use crate::access::{
    lemma_read_sequence_done, lemma_read_sequence_step, lemma_write_sequence_step, read_sequence,
    register_read, register_write, write_sequence, RegisterWrite,
};
use crate::driver::Rx8900;
use crate::registers::RegisterTable;
use crate::transport::Transport;
use vstd::prelude::*;

verus! {

/// The two registers of the timer counter, in the order in which they are
/// read and written.
pub open spec fn timer_registers() -> Seq<RegisterTable> {
    seq![RegisterTable::CompatibleTimerCounter0, RegisterTable::CompatibleTimerCounter1]
}

/// The register writes that store a timer count: the low byte first.
pub open spec fn timer_writes(count: u16) -> Seq<RegisterWrite> {
    seq![
        RegisterWrite {
            register: RegisterTable::CompatibleTimerCounter0,
            value: (count % 256) as u8,
        },
        RegisterWrite {
            register: RegisterTable::CompatibleTimerCounter1,
            value: (count / 256) as u8,
        },
    ]
}

/// The timer count that a low and a high byte make up.
pub open spec fn timer_count(low: u8, high: u8) -> u16 {
    (high * 256 + low) as u16
}

/// The two bytes that are written for a timer count make up that count.
pub proof fn lemma_timer_count_round_trip(count: u16)
    ensures
        timer_count((count % 256) as u8, (count / 256) as u8) == count,
{
}

impl<I2C: Transport> Rx8900<I2C> {
    /// Reads the low byte of the timer counter.
    pub fn timer_counter0(&mut self) -> (outcome: Result<u8, I2C::Error>)
        ensures
            register_read(old(self)@, RegisterTable::CompatibleTimerCounter0, final(self)@, outcome),
    {
        self.read_register(RegisterTable::CompatibleTimerCounter0)
    }

    /// Reads the high byte of the timer counter.
    pub fn timer_counter1(&mut self) -> (outcome: Result<u8, I2C::Error>)
        ensures
            register_read(old(self)@, RegisterTable::CompatibleTimerCounter1, final(self)@, outcome),
    {
        self.read_register(RegisterTable::CompatibleTimerCounter1)
    }

    /// Reads the timer counter: the low byte, then the high byte. The two
    /// reads are separate transactions.
    pub fn timer_counter(&mut self) -> (outcome: Result<u16, I2C::Error>)
        ensures
            match outcome {
                Ok(count) => exists|raw: Seq<u8>| #[trigger]
                    read_sequence(old(self)@, timer_registers(), final(self)@, Ok(raw)) && count
                        == timer_count(raw[0], raw[1]),
                Err(e) => read_sequence(old(self)@, timer_registers(), final(self)@, Err(e)),
            },
    {
        let ghost start = self@;
        let ghost mut bytes: Seq<u8> = Seq::empty();
        let ghost mut byte: u8 = 0;

        let data0 = self.read_register(RegisterTable::CompatibleTimerCounter0);
        let ghost middle = self@;
        proof {
            byte = lemma_read_sequence_step(
                start,
                timer_registers(),
                0,
                bytes,
                start,
                |raw: u8| raw,
                middle,
                data0,
            );
            bytes = bytes.push(byte);
        }
        let data0 = data0?;

        let data1 = self.read_register(RegisterTable::CompatibleTimerCounter1);
        proof {
            byte = lemma_read_sequence_step(
                start,
                timer_registers(),
                1,
                bytes,
                middle,
                |raw: u8| raw,
                self@,
                data1,
            );
            bytes = bytes.push(byte);
        }
        let data1 = data1?;

        proof {
            lemma_read_sequence_done(start, timer_registers(), bytes, self@);
        }
        assert((data1 as u16) << 8 | data0 as u16 == data1 * 256 + data0) by (bit_vector);
        Ok((data1 as u16) << 8 | data0 as u16)
    }

    /// Writes the low byte of the timer counter.
    pub fn set_timer_counter0(&mut self, data: u8) -> (outcome: Result<(), I2C::Error>)
        ensures
            register_write(
                old(self)@,
                RegisterTable::CompatibleTimerCounter0,
                data,
                final(self)@,
                outcome,
            ),
    {
        self.write_register(RegisterTable::CompatibleTimerCounter0, data)
    }

    /// Writes the high byte of the timer counter.
    pub fn set_timer_counter1(&mut self, data: u8) -> (outcome: Result<(), I2C::Error>)
        ensures
            register_write(
                old(self)@,
                RegisterTable::CompatibleTimerCounter1,
                data,
                final(self)@,
                outcome,
            ),
    {
        self.write_register(RegisterTable::CompatibleTimerCounter1, data)
    }

    /// Writes the timer counter: the low byte, then the high byte. If the
    /// first write fails the second is not attempted.
    pub fn set_timer_counter(&mut self, data: u16) -> (outcome: Result<(), I2C::Error>)
        ensures
            write_sequence(old(self)@, timer_writes(data), final(self)@, outcome),
    {
        let ghost start = self@;
        assert((data & 0x00FF) == data % 256 && ((data & 0xFF00) >> 8) == data / 256) by (bit_vector);
        let low = (data & 0x00FF) as u8;
        let high = ((data & 0xFF00) >> 8) as u8;

        let written = self.write_register(RegisterTable::CompatibleTimerCounter0, low);
        let ghost middle = self@;
        proof {
            lemma_write_sequence_step(start, timer_writes(data), 0, start, middle, written);
        }
        written?;

        let written = self.write_register(RegisterTable::CompatibleTimerCounter1, high);
        proof {
            lemma_write_sequence_step(start, timer_writes(data), 1, middle, self@, written);
        }
        written
    }
}

} // verus!
