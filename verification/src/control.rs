//! The control register: compensation interval, interrupt enables and
//! the reset bit.

use crate::access::{decoded_read, register_update};
use crate::bits::{
    bit_is_set, extract_field, field_of, lemma_two_bit_field_round_trip, lemma_two_bit_fields,
    replace_field, with_bit, with_field,
};
use crate::config::CompensationIntervalType;
use crate::driver::Rx8900;
use crate::registers::RegisterTable;
use crate::transport::Transport;
use vstd::prelude::*;

verus! {

/// The position of the upper compensation interval selection bit.
pub const CSEL1_BIT: u8 = 7;

/// The position of the lower compensation interval selection bit.
pub const CSEL0_BIT: u8 = 6;

/// The position of the update interrupt enable bit.
pub const UIE_BIT: u8 = 5;

/// The position of the timer interrupt enable bit.
pub const TIE_BIT: u8 = 4;

/// The position of the alarm interrupt enable bit.
pub const AIE_BIT: u8 = 3;

/// The position of the reset bit.
pub const RESET_BIT: u8 = 0;

/// The bits of the compensation interval selection.
pub const CSEL_MASK: u8 = 0b11000000;

/// How far the compensation interval selection stands above bit 0.
pub const CSEL_SHIFT: u8 = 6;

/// A control register into which a compensation interval has been written
/// is read as that interval, and its other bits are as they were.
pub proof fn lemma_compensation_interval_read_back(current: u8, data: CompensationIntervalType)
    ensures
        CompensationIntervalType::of_code(
            field_of(
                with_field(current, CSEL_MASK, CSEL_SHIFT, data.spec_code()),
                CSEL_MASK,
                CSEL_SHIFT,
            ),
        ) == data,
        with_field(current, CSEL_MASK, CSEL_SHIFT, data.spec_code()) & !CSEL_MASK == current
            & !CSEL_MASK,
{
    lemma_two_bit_field_round_trip(current, CSEL_MASK, CSEL_SHIFT, data.spec_code());
}

impl<I2C: Transport> Rx8900<I2C> {
    /// Reads the upper compensation interval selection bit.
    pub fn csel1(&mut self) -> (outcome: Result<bool, I2C::Error>)
        ensures
            decoded_read(
                old(self)@,
                RegisterTable::CompatibleControlRegister,
                |raw: u8| bit_is_set(raw, CSEL1_BIT),
                final(self)@,
                outcome,
            ),
    {
        self.read_register_1bit(RegisterTable::CompatibleControlRegister, CSEL1_BIT)
    }

    /// Reads the lower compensation interval selection bit.
    pub fn csel0(&mut self) -> (outcome: Result<bool, I2C::Error>)
        ensures
            decoded_read(
                old(self)@,
                RegisterTable::CompatibleControlRegister,
                |raw: u8| bit_is_set(raw, CSEL0_BIT),
                final(self)@,
                outcome,
            ),
    {
        self.read_register_1bit(RegisterTable::CompatibleControlRegister, CSEL0_BIT)
    }

    /// Reads the compensation interval selection.
    pub fn csel(&mut self) -> (outcome: Result<u8, I2C::Error>)
        ensures
            decoded_read(
                old(self)@,
                RegisterTable::CompatibleControlRegister,
                |raw: u8| field_of(raw, CSEL_MASK, CSEL_SHIFT),
                final(self)@,
                outcome,
            ),
            outcome matches Ok(code) ==> code <= 0b11,
    {
        let data = self.read_register(RegisterTable::CompatibleControlRegister)?;
        proof {
            lemma_two_bit_fields(data);
        }
        Ok(extract_field(data, CSEL_MASK, CSEL_SHIFT))
    }

    /// Reads how often the temperature compensation runs.
    pub fn compensation_interval_type(&mut self) -> (outcome: Result<CompensationIntervalType, I2C::Error>)
        ensures
            decoded_read(
                old(self)@,
                RegisterTable::CompatibleControlRegister,
                |raw: u8| CompensationIntervalType::of_code(field_of(raw, CSEL_MASK, CSEL_SHIFT)),
                final(self)@,
                outcome,
            ),
    {
        let current = self.csel()?;
        Ok(CompensationIntervalType::from_code(current))
    }

    /// Reads the update interrupt enable bit.
    pub fn uie(&mut self) -> (outcome: Result<bool, I2C::Error>)
        ensures
            decoded_read(
                old(self)@,
                RegisterTable::CompatibleControlRegister,
                |raw: u8| bit_is_set(raw, UIE_BIT),
                final(self)@,
                outcome,
            ),
    {
        self.read_register_1bit(RegisterTable::CompatibleControlRegister, UIE_BIT)
    }

    /// Reads whether the update interrupt is enabled.
    pub fn update_interrupt_enable(&mut self) -> (outcome: Result<bool, I2C::Error>)
        ensures
            decoded_read(
                old(self)@,
                RegisterTable::CompatibleControlRegister,
                |raw: u8| bit_is_set(raw, UIE_BIT),
                final(self)@,
                outcome,
            ),
    {
        self.uie()
    }

    /// Reads the timer interrupt enable bit.
    pub fn tie(&mut self) -> (outcome: Result<bool, I2C::Error>)
        ensures
            decoded_read(
                old(self)@,
                RegisterTable::CompatibleControlRegister,
                |raw: u8| bit_is_set(raw, TIE_BIT),
                final(self)@,
                outcome,
            ),
    {
        self.read_register_1bit(RegisterTable::CompatibleControlRegister, TIE_BIT)
    }

    /// Reads whether the timer interrupt is enabled.
    pub fn timer_interrupt_enable(&mut self) -> (outcome: Result<bool, I2C::Error>)
        ensures
            decoded_read(
                old(self)@,
                RegisterTable::CompatibleControlRegister,
                |raw: u8| bit_is_set(raw, TIE_BIT),
                final(self)@,
                outcome,
            ),
    {
        self.tie()
    }

    /// Reads the alarm interrupt enable bit.
    pub fn aie(&mut self) -> (outcome: Result<bool, I2C::Error>)
        ensures
            decoded_read(
                old(self)@,
                RegisterTable::CompatibleControlRegister,
                |raw: u8| bit_is_set(raw, AIE_BIT),
                final(self)@,
                outcome,
            ),
    {
        self.read_register_1bit(RegisterTable::CompatibleControlRegister, AIE_BIT)
    }

    /// Reads whether the alarm interrupt is enabled.
    pub fn alarm_interrupt_enable(&mut self) -> (outcome: Result<bool, I2C::Error>)
        ensures
            decoded_read(
                old(self)@,
                RegisterTable::CompatibleControlRegister,
                |raw: u8| bit_is_set(raw, AIE_BIT),
                final(self)@,
                outcome,
            ),
    {
        self.aie()
    }

    /// Reads the reset bit.
    pub fn reset(&mut self) -> (outcome: Result<bool, I2C::Error>)
        ensures
            decoded_read(
                old(self)@,
                RegisterTable::CompatibleControlRegister,
                |raw: u8| bit_is_set(raw, RESET_BIT),
                final(self)@,
                outcome,
            ),
    {
        self.read_register_1bit(RegisterTable::CompatibleControlRegister, RESET_BIT)
    }

    /// Writes the upper compensation interval selection bit.
    pub fn set_csel1(&mut self, data: bool) -> (outcome: Result<(), I2C::Error>)
        ensures
            register_update(
                old(self)@,
                RegisterTable::CompatibleControlRegister,
                |current: u8| with_bit(current, CSEL1_BIT, data),
                final(self)@,
                outcome,
            ),
    {
        self.set_bit(RegisterTable::CompatibleControlRegister, CSEL1_BIT, data)
    }

    /// Writes the lower compensation interval selection bit.
    pub fn set_csel0(&mut self, data: bool) -> (outcome: Result<(), I2C::Error>)
        ensures
            register_update(
                old(self)@,
                RegisterTable::CompatibleControlRegister,
                |current: u8| with_bit(current, CSEL0_BIT, data),
                final(self)@,
                outcome,
            ),
    {
        self.set_bit(RegisterTable::CompatibleControlRegister, CSEL0_BIT, data)
    }

    /// Writes the compensation interval selection and keeps the other bits
    /// of the register as they were read. Only the lowest two bits of
    /// `data` reach the register.
    pub fn set_csel(&mut self, data: u8) -> (outcome: Result<(), I2C::Error>)
        ensures
            register_update(
                old(self)@,
                RegisterTable::CompatibleControlRegister,
                |current: u8| with_field(current, CSEL_MASK, CSEL_SHIFT, data),
                final(self)@,
                outcome,
            ),
    {
        let current = self.read_register(RegisterTable::CompatibleControlRegister)?;
        let data = replace_field(current, CSEL_MASK, CSEL_SHIFT, data);
        self.write_register(RegisterTable::CompatibleControlRegister, data)
    }

    /// Selects how often the temperature compensation runs.
    pub fn set_compensation_interval_type(&mut self, data: CompensationIntervalType) -> (outcome: Result<(), I2C::Error>)
        ensures
            register_update(
                old(self)@,
                RegisterTable::CompatibleControlRegister,
                |current: u8| with_field(current, CSEL_MASK, CSEL_SHIFT, data.spec_code()),
                final(self)@,
                outcome,
            ),
    {
        self.set_csel(data.code())
    }

    /// Writes the update interrupt enable bit.
    pub fn set_uie(&mut self, data: bool) -> (outcome: Result<(), I2C::Error>)
        ensures
            register_update(
                old(self)@,
                RegisterTable::CompatibleControlRegister,
                |current: u8| with_bit(current, UIE_BIT, data),
                final(self)@,
                outcome,
            ),
    {
        self.set_bit(RegisterTable::CompatibleControlRegister, UIE_BIT, data)
    }

    /// Enables or disables the update interrupt.
    pub fn set_update_interrupt_enable(&mut self, data: bool) -> (outcome: Result<(), I2C::Error>)
        ensures
            register_update(
                old(self)@,
                RegisterTable::CompatibleControlRegister,
                |current: u8| with_bit(current, UIE_BIT, data),
                final(self)@,
                outcome,
            ),
    {
        self.set_uie(data)
    }

    /// Writes the timer interrupt enable bit.
    pub fn set_tie(&mut self, data: bool) -> (outcome: Result<(), I2C::Error>)
        ensures
            register_update(
                old(self)@,
                RegisterTable::CompatibleControlRegister,
                |current: u8| with_bit(current, TIE_BIT, data),
                final(self)@,
                outcome,
            ),
    {
        self.set_bit(RegisterTable::CompatibleControlRegister, TIE_BIT, data)
    }

    /// Enables the timer interrupt.
    pub fn set_timer_interrupt_enable(&mut self) -> (outcome: Result<(), I2C::Error>)
        ensures
            register_update(
                old(self)@,
                RegisterTable::CompatibleControlRegister,
                |current: u8| with_bit(current, TIE_BIT, true),
                final(self)@,
                outcome,
            ),
    {
        self.set_tie(true)
    }

    /// Disables the timer interrupt.
    pub fn reset_timer_interrupt_enable(&mut self) -> (outcome: Result<(), I2C::Error>)
        ensures
            register_update(
                old(self)@,
                RegisterTable::CompatibleControlRegister,
                |current: u8| with_bit(current, TIE_BIT, false),
                final(self)@,
                outcome,
            ),
    {
        self.set_tie(false)
    }

    /// Writes the alarm interrupt enable bit.
    pub fn set_aie(&mut self, data: bool) -> (outcome: Result<(), I2C::Error>)
        ensures
            register_update(
                old(self)@,
                RegisterTable::CompatibleControlRegister,
                |current: u8| with_bit(current, AIE_BIT, data),
                final(self)@,
                outcome,
            ),
    {
        self.set_bit(RegisterTable::CompatibleControlRegister, AIE_BIT, data)
    }

    /// Enables the alarm interrupt.
    pub fn set_alarm_interrupt_enable(&mut self) -> (outcome: Result<(), I2C::Error>)
        ensures
            register_update(
                old(self)@,
                RegisterTable::CompatibleControlRegister,
                |current: u8| with_bit(current, AIE_BIT, true),
                final(self)@,
                outcome,
            ),
    {
        self.set_aie(true)
    }

    /// Disables the alarm interrupt.
    pub fn reset_alarm_interrupt_enable(&mut self) -> (outcome: Result<(), I2C::Error>)
        ensures
            register_update(
                old(self)@,
                RegisterTable::CompatibleControlRegister,
                |current: u8| with_bit(current, AIE_BIT, false),
                final(self)@,
                outcome,
            ),
    {
        self.set_aie(false)
    }

    /// Writes the reset bit.
    pub fn set_reset(&mut self, data: bool) -> (outcome: Result<(), I2C::Error>)
        ensures
            register_update(
                old(self)@,
                RegisterTable::CompatibleControlRegister,
                |current: u8| with_bit(current, RESET_BIT, data),
                final(self)@,
                outcome,
            ),
    {
        self.set_bit(RegisterTable::CompatibleControlRegister, RESET_BIT, data)
    }
}

} // verus!
