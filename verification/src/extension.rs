//! The extension register: test bit, alarm and update selection, timer
//! enable, output frequency and timer source clock.

use crate::access::{decoded_read, register_update};
use crate::bits::{
    bit_is_set, extract_field, field_of, lemma_two_bit_field_round_trip, lemma_two_bit_fields,
    replace_field, with_bit, with_field,
};
use crate::config::{AlarmType, FoutFrequency, SourceClock, UpdateInterruptType};
use crate::driver::Rx8900;
use crate::registers::RegisterTable;
use crate::transport::Transport;
use vstd::prelude::*;

verus! {

/// The position of the test bit.
pub const TEST_BIT: u8 = 7;

/// The position of the alarm selection bit.
pub const WADA_BIT: u8 = 6;

/// The position of the update interrupt selection bit.
pub const USEL_BIT: u8 = 5;

/// The position of the timer enable bit.
pub const TE_BIT: u8 = 4;

/// The position of the upper output frequency selection bit.
pub const FSEL1_BIT: u8 = 3;

/// The position of the lower output frequency selection bit.
pub const FSEL0_BIT: u8 = 2;

/// The position of the upper timer source clock selection bit.
pub const TSEL1_BIT: u8 = 1;

/// The position of the lower timer source clock selection bit.
pub const TSEL0_BIT: u8 = 0;

/// The bits of the output frequency selection.
pub const FSEL_MASK: u8 = 0b00001100;

/// How far the output frequency selection stands above bit 0.
pub const FSEL_SHIFT: u8 = 2;

/// The bits of the timer source clock selection.
pub const TSEL_MASK: u8 = 0b00000011;

/// How far the timer source clock selection stands above bit 0.
pub const TSEL_SHIFT: u8 = 0;

/// An extension register into which an output frequency has been written
/// is read as that frequency, and its other bits are as they were. For
/// 32.768 kHz both selection bits are then clear, whatever they held.
pub proof fn lemma_fout_frequency_read_back(current: u8, data: FoutFrequency)
    ensures
        FoutFrequency::of_code(
            field_of(
                with_field(current, FSEL_MASK, FSEL_SHIFT, data.spec_code()),
                FSEL_MASK,
                FSEL_SHIFT,
            ),
        ) == data,
        data == FoutFrequency::FoutFrequency32_768kHz ==> field_of(
            with_field(current, FSEL_MASK, FSEL_SHIFT, data.spec_code()),
            FSEL_MASK,
            FSEL_SHIFT,
        ) == 0b00,
        with_field(current, FSEL_MASK, FSEL_SHIFT, data.spec_code()) & !FSEL_MASK == current
            & !FSEL_MASK,
{
    lemma_two_bit_field_round_trip(current, FSEL_MASK, FSEL_SHIFT, data.spec_code());
}

/// An extension register into which a timer source clock has been written
/// is read as that clock, and its other bits are as they were.
pub proof fn lemma_source_clock_read_back(current: u8, data: SourceClock)
    ensures
        SourceClock::of_code(
            field_of(
                with_field(current, TSEL_MASK, TSEL_SHIFT, data.spec_code()),
                TSEL_MASK,
                TSEL_SHIFT,
            ),
        ) == data,
        with_field(current, TSEL_MASK, TSEL_SHIFT, data.spec_code()) & !TSEL_MASK == current
            & !TSEL_MASK,
{
    lemma_two_bit_field_round_trip(current, TSEL_MASK, TSEL_SHIFT, data.spec_code());
}

impl<I2C: Transport> Rx8900<I2C> {
    /// Reads which alarm is selected.
    pub fn alarm_type(&mut self) -> (outcome: Result<AlarmType, I2C::Error>)
        ensures
            decoded_read(
                old(self)@,
                RegisterTable::CompatibleExtensionRegister,
                |raw: u8| AlarmType::of_flag(bit_is_set(raw, WADA_BIT)),
                final(self)@,
                outcome,
            ),
    {
        let selected = self.wada()?;
        Ok(AlarmType::from_flag(selected))
    }

    /// Reads the test bit.
    pub fn test(&mut self) -> (outcome: Result<bool, I2C::Error>)
        ensures
            decoded_read(
                old(self)@,
                RegisterTable::CompatibleExtensionRegister,
                |raw: u8| bit_is_set(raw, TEST_BIT),
                final(self)@,
                outcome,
            ),
    {
        self.read_register_1bit(RegisterTable::CompatibleExtensionRegister, TEST_BIT)
    }

    /// Reads the alarm selection bit: set for the day alarm, clear for the
    /// week alarm.
    pub fn wada(&mut self) -> (outcome: Result<bool, I2C::Error>)
        ensures
            decoded_read(
                old(self)@,
                RegisterTable::CompatibleExtensionRegister,
                |raw: u8| bit_is_set(raw, WADA_BIT),
                final(self)@,
                outcome,
            ),
    {
        self.read_register_1bit(RegisterTable::CompatibleExtensionRegister, WADA_BIT)
    }

    /// Reads how often the update interrupt comes.
    pub fn update_interrupt_type(&mut self) -> (outcome: Result<UpdateInterruptType, I2C::Error>)
        ensures
            decoded_read(
                old(self)@,
                RegisterTable::CompatibleExtensionRegister,
                |raw: u8| UpdateInterruptType::of_flag(bit_is_set(raw, USEL_BIT)),
                final(self)@,
                outcome,
            ),
    {
        let selected = self.usel()?;
        Ok(UpdateInterruptType::from_flag(selected))
    }

    /// Reads the update interrupt selection bit: set for every minute,
    /// clear for every second.
    pub fn usel(&mut self) -> (outcome: Result<bool, I2C::Error>)
        ensures
            decoded_read(
                old(self)@,
                RegisterTable::CompatibleExtensionRegister,
                |raw: u8| bit_is_set(raw, USEL_BIT),
                final(self)@,
                outcome,
            ),
    {
        self.read_register_1bit(RegisterTable::CompatibleExtensionRegister, USEL_BIT)
    }

    /// Reads the timer enable bit.
    pub fn te(&mut self) -> (outcome: Result<bool, I2C::Error>)
        ensures
            decoded_read(
                old(self)@,
                RegisterTable::CompatibleExtensionRegister,
                |raw: u8| bit_is_set(raw, TE_BIT),
                final(self)@,
                outcome,
            ),
    {
        self.read_register_1bit(RegisterTable::CompatibleExtensionRegister, TE_BIT)
    }

    /// Reads whether the timer is enabled.
    pub fn timer_enable(&mut self) -> (outcome: Result<bool, I2C::Error>)
        ensures
            decoded_read(
                old(self)@,
                RegisterTable::CompatibleExtensionRegister,
                |raw: u8| bit_is_set(raw, TE_BIT),
                final(self)@,
                outcome,
            ),
    {
        self.te()
    }

    /// Reads the upper output frequency selection bit.
    pub fn fsel1(&mut self) -> (outcome: Result<bool, I2C::Error>)
        ensures
            decoded_read(
                old(self)@,
                RegisterTable::CompatibleExtensionRegister,
                |raw: u8| bit_is_set(raw, FSEL1_BIT),
                final(self)@,
                outcome,
            ),
    {
        self.read_register_1bit(RegisterTable::CompatibleExtensionRegister, FSEL1_BIT)
    }

    /// Reads the lower output frequency selection bit.
    pub fn fsel0(&mut self) -> (outcome: Result<bool, I2C::Error>)
        ensures
            decoded_read(
                old(self)@,
                RegisterTable::CompatibleExtensionRegister,
                |raw: u8| bit_is_set(raw, FSEL0_BIT),
                final(self)@,
                outcome,
            ),
    {
        self.read_register_1bit(RegisterTable::CompatibleExtensionRegister, FSEL0_BIT)
    }

    /// Reads the output frequency selection.
    pub fn fsel(&mut self) -> (outcome: Result<u8, I2C::Error>)
        ensures
            decoded_read(
                old(self)@,
                RegisterTable::CompatibleExtensionRegister,
                |raw: u8| field_of(raw, FSEL_MASK, FSEL_SHIFT),
                final(self)@,
                outcome,
            ),
            outcome matches Ok(code) ==> code <= 0b11,
    {
        let data = self.read_register(RegisterTable::CompatibleExtensionRegister)?;
        proof {
            lemma_two_bit_fields(data);
        }
        Ok(extract_field(data, FSEL_MASK, FSEL_SHIFT))
    }

    /// Reads the frequency put out on the FOUT pin. Both codes of
    /// 32.768 kHz are read as that frequency.
    pub fn fout_frequency(&mut self) -> (outcome: Result<FoutFrequency, I2C::Error>)
        ensures
            decoded_read(
                old(self)@,
                RegisterTable::CompatibleExtensionRegister,
                |raw: u8| FoutFrequency::of_code(field_of(raw, FSEL_MASK, FSEL_SHIFT)),
                final(self)@,
                outcome,
            ),
    {
        let current = self.fsel()?;
        Ok(FoutFrequency::from_code(current))
    }

    /// Reads the clock that drives the timer.
    pub fn source_clock(&mut self) -> (outcome: Result<SourceClock, I2C::Error>)
        ensures
            decoded_read(
                old(self)@,
                RegisterTable::CompatibleExtensionRegister,
                |raw: u8| SourceClock::of_code(field_of(raw, TSEL_MASK, TSEL_SHIFT)),
                final(self)@,
                outcome,
            ),
    {
        let data = self.read_register(RegisterTable::CompatibleExtensionRegister)?;
        proof {
            lemma_two_bit_fields(data);
        }
        Ok(SourceClock::from_code(extract_field(data, TSEL_MASK, TSEL_SHIFT)))
    }

    /// Reads the upper timer source clock selection bit.
    pub fn tsel1(&mut self) -> (outcome: Result<bool, I2C::Error>)
        ensures
            decoded_read(
                old(self)@,
                RegisterTable::CompatibleExtensionRegister,
                |raw: u8| bit_is_set(raw, TSEL1_BIT),
                final(self)@,
                outcome,
            ),
    {
        self.read_register_1bit(RegisterTable::CompatibleExtensionRegister, TSEL1_BIT)
    }

    /// Reads the lower timer source clock selection bit.
    pub fn tsel0(&mut self) -> (outcome: Result<bool, I2C::Error>)
        ensures
            decoded_read(
                old(self)@,
                RegisterTable::CompatibleExtensionRegister,
                |raw: u8| bit_is_set(raw, TSEL0_BIT),
                final(self)@,
                outcome,
            ),
    {
        self.read_register_1bit(RegisterTable::CompatibleExtensionRegister, TSEL0_BIT)
    }

    /// Reads the timer source clock selection.
    pub fn tsel(&mut self) -> (outcome: Result<u8, I2C::Error>)
        ensures
            decoded_read(
                old(self)@,
                RegisterTable::CompatibleExtensionRegister,
                |raw: u8| field_of(raw, TSEL_MASK, TSEL_SHIFT),
                final(self)@,
                outcome,
            ),
            outcome matches Ok(code) ==> code <= 0b11,
    {
        let data = self.read_register(RegisterTable::CompatibleExtensionRegister)?;
        proof {
            lemma_two_bit_fields(data);
        }
        Ok(extract_field(data, TSEL_MASK, TSEL_SHIFT))
    }

    /// Selects the week alarm or the day alarm.
    pub fn set_alarm_type(&mut self, data: AlarmType) -> (outcome: Result<(), I2C::Error>)
        ensures
            register_update(
                old(self)@,
                RegisterTable::CompatibleExtensionRegister,
                |current: u8| with_bit(current, WADA_BIT, data.spec_flag()),
                final(self)@,
                outcome,
            ),
    {
        self.set_wada(data.flag())
    }

    /// Writes the test bit.
    pub fn set_test(&mut self, data: bool) -> (outcome: Result<(), I2C::Error>)
        ensures
            register_update(
                old(self)@,
                RegisterTable::CompatibleExtensionRegister,
                |current: u8| with_bit(current, TEST_BIT, data),
                final(self)@,
                outcome,
            ),
    {
        self.set_bit(RegisterTable::CompatibleExtensionRegister, TEST_BIT, data)
    }

    /// Writes the alarm selection bit.
    pub fn set_wada(&mut self, data: bool) -> (outcome: Result<(), I2C::Error>)
        ensures
            register_update(
                old(self)@,
                RegisterTable::CompatibleExtensionRegister,
                |current: u8| with_bit(current, WADA_BIT, data),
                final(self)@,
                outcome,
            ),
    {
        self.set_bit(RegisterTable::CompatibleExtensionRegister, WADA_BIT, data)
    }

    /// Selects how often the update interrupt comes.
    pub fn set_update_interrupt_type(&mut self, data: UpdateInterruptType) -> (outcome: Result<
        (),
        I2C::Error,
    >)
        ensures
            register_update(
                old(self)@,
                RegisterTable::CompatibleExtensionRegister,
                |current: u8| with_bit(current, USEL_BIT, data.spec_flag()),
                final(self)@,
                outcome,
            ),
    {
        self.set_usel(data.flag())
    }

    /// Writes the update interrupt selection bit.
    pub fn set_usel(&mut self, data: bool) -> (outcome: Result<(), I2C::Error>)
        ensures
            register_update(
                old(self)@,
                RegisterTable::CompatibleExtensionRegister,
                |current: u8| with_bit(current, USEL_BIT, data),
                final(self)@,
                outcome,
            ),
    {
        self.set_bit(RegisterTable::CompatibleExtensionRegister, USEL_BIT, data)
    }

    /// Writes the timer enable bit.
    pub fn set_te(&mut self, data: bool) -> (outcome: Result<(), I2C::Error>)
        ensures
            register_update(
                old(self)@,
                RegisterTable::CompatibleExtensionRegister,
                |current: u8| with_bit(current, TE_BIT, data),
                final(self)@,
                outcome,
            ),
    {
        self.set_bit(RegisterTable::CompatibleExtensionRegister, TE_BIT, data)
    }

    /// Enables the timer.
    pub fn set_timer_enable(&mut self) -> (outcome: Result<(), I2C::Error>)
        ensures
            register_update(
                old(self)@,
                RegisterTable::CompatibleExtensionRegister,
                |current: u8| with_bit(current, TE_BIT, true),
                final(self)@,
                outcome,
            ),
    {
        self.set_te(true)
    }

    /// Disables the timer.
    pub fn reset_timer_enable(&mut self) -> (outcome: Result<(), I2C::Error>)
        ensures
            register_update(
                old(self)@,
                RegisterTable::CompatibleExtensionRegister,
                |current: u8| with_bit(current, TE_BIT, false),
                final(self)@,
                outcome,
            ),
    {
        self.set_te(false)
    }

    /// Writes the upper output frequency selection bit.
    pub fn set_fsel1(&mut self, data: bool) -> (outcome: Result<(), I2C::Error>)
        ensures
            register_update(
                old(self)@,
                RegisterTable::CompatibleExtensionRegister,
                |current: u8| with_bit(current, FSEL1_BIT, data),
                final(self)@,
                outcome,
            ),
    {
        self.set_bit(RegisterTable::CompatibleExtensionRegister, FSEL1_BIT, data)
    }

    /// Writes the lower output frequency selection bit.
    pub fn set_fsel0(&mut self, data: bool) -> (outcome: Result<(), I2C::Error>)
        ensures
            register_update(
                old(self)@,
                RegisterTable::CompatibleExtensionRegister,
                |current: u8| with_bit(current, FSEL0_BIT, data),
                final(self)@,
                outcome,
            ),
    {
        self.set_bit(RegisterTable::CompatibleExtensionRegister, FSEL0_BIT, data)
    }

    /// Writes the output frequency selection and keeps the other bits of
    /// the register as they were read. Bits of `data` above the lowest two
    /// are not cut off.
    pub fn set_fsel(&mut self, data: u8) -> (outcome: Result<(), I2C::Error>)
        ensures
            register_update(
                old(self)@,
                RegisterTable::CompatibleExtensionRegister,
                |current: u8| with_field(current, FSEL_MASK, FSEL_SHIFT, data),
                final(self)@,
                outcome,
            ),
    {
        let current = self.read_register(RegisterTable::CompatibleExtensionRegister)?;
        let data = replace_field(current, FSEL_MASK, FSEL_SHIFT, data);
        self.write_register(RegisterTable::CompatibleExtensionRegister, data)
    }

    /// Selects the frequency put out on the FOUT pin. 32.768 kHz is written
    /// as `0b00`.
    pub fn set_fout_frequency(&mut self, data: FoutFrequency) -> (outcome: Result<(), I2C::Error>)
        ensures
            register_update(
                old(self)@,
                RegisterTable::CompatibleExtensionRegister,
                |current: u8| with_field(current, FSEL_MASK, FSEL_SHIFT, data.spec_code()),
                final(self)@,
                outcome,
            ),
    {
        self.set_fsel(data.code())
    }

    /// Selects the clock that drives the timer.
    pub fn set_source_clock(&mut self, data: SourceClock) -> (outcome: Result<(), I2C::Error>)
        ensures
            register_update(
                old(self)@,
                RegisterTable::CompatibleExtensionRegister,
                |current: u8| with_field(current, TSEL_MASK, TSEL_SHIFT, data.spec_code()),
                final(self)@,
                outcome,
            ),
    {
        let current = self.read_register(RegisterTable::CompatibleExtensionRegister)?;
        let data = replace_field(current, TSEL_MASK, TSEL_SHIFT, data.code());
        self.write_register(RegisterTable::CompatibleExtensionRegister, data)
    }

    /// Writes the upper timer source clock selection bit.
    pub fn set_tsel1(&mut self, data: bool) -> (outcome: Result<(), I2C::Error>)
        ensures
            register_update(
                old(self)@,
                RegisterTable::CompatibleExtensionRegister,
                |current: u8| with_bit(current, TSEL1_BIT, data),
                final(self)@,
                outcome,
            ),
    {
        self.set_bit(RegisterTable::CompatibleExtensionRegister, TSEL1_BIT, data)
    }

    /// Writes the lower timer source clock selection bit.
    pub fn set_tsel0(&mut self, data: bool) -> (outcome: Result<(), I2C::Error>)
        ensures
            register_update(
                old(self)@,
                RegisterTable::CompatibleExtensionRegister,
                |current: u8| with_bit(current, TSEL0_BIT, data),
                final(self)@,
                outcome,
            ),
    {
        self.set_bit(RegisterTable::CompatibleExtensionRegister, TSEL0_BIT, data)
    }

    /// Writes the timer source clock selection and keeps the other bits of
    /// the register as they were read. Bits of `data` above the lowest two
    /// are not cut off.
    pub fn set_tsel(&mut self, data: u8) -> (outcome: Result<(), I2C::Error>)
        ensures
            register_update(
                old(self)@,
                RegisterTable::CompatibleExtensionRegister,
                |current: u8| with_field(current, TSEL_MASK, TSEL_SHIFT, data),
                final(self)@,
                outcome,
            ),
    {
        let current = self.read_register(RegisterTable::CompatibleExtensionRegister)?;
        let data = replace_field(current, TSEL_MASK, TSEL_SHIFT, data);
        self.write_register(RegisterTable::CompatibleExtensionRegister, data)
    }
}

} // verus!
