//! The backup function register and the temperature register of the
//! extended bank.

use crate::access::{decoded_read, register_read, register_update};
use crate::bits::{
    bit_is_set, extract_field, field_of, lemma_two_bit_fields, replace_field, with_bit, with_field,
};
use crate::driver::Rx8900;
use crate::registers::RegisterTable;
use crate::transport::Transport;
use vstd::prelude::*;

verus! {

/// The position of the voltage detector off bit.
pub const VDETOFF_BIT: u8 = 3;

/// The position of the switch off bit.
pub const SWOFF_BIT: u8 = 2;

/// The position of the upper backup mode sampling time bit.
pub const BKSMP1_BIT: u8 = 1;

/// The position of the lower backup mode sampling time bit.
pub const BKSMP0_BIT: u8 = 0;

/// The bits of the backup mode sampling time.
pub const BKSMP_MASK: u8 = 0b00000011;

/// How far the backup mode sampling time stands above bit 0.
pub const BKSMP_SHIFT: u8 = 0;

impl<I2C: Transport> Rx8900<I2C> {
    /// Reads the temperature sensor's byte.
    pub fn temp(&mut self) -> (outcome: Result<u8, I2C::Error>)
        ensures
            register_read(old(self)@, RegisterTable::ExtendedTEMP, final(self)@, outcome),
    {
        self.read_register(RegisterTable::ExtendedTEMP)
    }

    /// Reads the voltage detector off bit.
    pub fn vdetoff(&mut self) -> (outcome: Result<bool, I2C::Error>)
        ensures
            decoded_read(
                old(self)@,
                RegisterTable::ExtendedBackupFunction,
                |raw: u8| bit_is_set(raw, VDETOFF_BIT),
                final(self)@,
                outcome,
            ),
    {
        self.read_register_1bit(RegisterTable::ExtendedBackupFunction, VDETOFF_BIT)
    }

    /// Reads whether the voltage detector is switched off.
    pub fn voltage_detector_off(&mut self) -> (outcome: Result<bool, I2C::Error>)
        ensures
            decoded_read(
                old(self)@,
                RegisterTable::ExtendedBackupFunction,
                |raw: u8| bit_is_set(raw, VDETOFF_BIT),
                final(self)@,
                outcome,
            ),
    {
        self.vdetoff()
    }

    /// Reads the switch off bit.
    pub fn swoff(&mut self) -> (outcome: Result<bool, I2C::Error>)
        ensures
            decoded_read(
                old(self)@,
                RegisterTable::ExtendedBackupFunction,
                |raw: u8| bit_is_set(raw, SWOFF_BIT),
                final(self)@,
                outcome,
            ),
    {
        self.read_register_1bit(RegisterTable::ExtendedBackupFunction, SWOFF_BIT)
    }

    /// Reads whether the backup power switch is held off.
    pub fn switch_off(&mut self) -> (outcome: Result<bool, I2C::Error>)
        ensures
            decoded_read(
                old(self)@,
                RegisterTable::ExtendedBackupFunction,
                |raw: u8| bit_is_set(raw, SWOFF_BIT),
                final(self)@,
                outcome,
            ),
    {
        self.swoff()
    }

    /// Reads the upper backup mode sampling time bit.
    pub fn bksmp1(&mut self) -> (outcome: Result<bool, I2C::Error>)
        ensures
            decoded_read(
                old(self)@,
                RegisterTable::ExtendedBackupFunction,
                |raw: u8| bit_is_set(raw, BKSMP1_BIT),
                final(self)@,
                outcome,
            ),
    {
        self.read_register_1bit(RegisterTable::ExtendedBackupFunction, BKSMP1_BIT)
    }

    /// Reads the lower backup mode sampling time bit.
    pub fn bksmp0(&mut self) -> (outcome: Result<bool, I2C::Error>)
        ensures
            decoded_read(
                old(self)@,
                RegisterTable::ExtendedBackupFunction,
                |raw: u8| bit_is_set(raw, BKSMP0_BIT),
                final(self)@,
                outcome,
            ),
    {
        self.read_register_1bit(RegisterTable::ExtendedBackupFunction, BKSMP0_BIT)
    }

    /// Reads the backup mode sampling time selection.
    pub fn bksmp(&mut self) -> (outcome: Result<u8, I2C::Error>)
        ensures
            decoded_read(
                old(self)@,
                RegisterTable::ExtendedBackupFunction,
                |raw: u8| field_of(raw, BKSMP_MASK, BKSMP_SHIFT),
                final(self)@,
                outcome,
            ),
            outcome matches Ok(code) ==> code <= 0b11,
    {
        let data = self.read_register(RegisterTable::ExtendedBackupFunction)?;
        proof {
            lemma_two_bit_fields(data);
        }
        Ok(extract_field(data, BKSMP_MASK, BKSMP_SHIFT))
    }

    /// Reads the backup mode sampling time selection.
    pub fn backup_mode_sampling_time(&mut self) -> (outcome: Result<u8, I2C::Error>)
        ensures
            decoded_read(
                old(self)@,
                RegisterTable::ExtendedBackupFunction,
                |raw: u8| field_of(raw, BKSMP_MASK, BKSMP_SHIFT),
                final(self)@,
                outcome,
            ),
            outcome matches Ok(code) ==> code <= 0b11,
    {
        self.bksmp()
    }

    /// Writes the voltage detector off bit.
    pub fn set_vdetoff(&mut self, data: bool) -> (outcome: Result<(), I2C::Error>)
        ensures
            register_update(
                old(self)@,
                RegisterTable::ExtendedBackupFunction,
                |current: u8| with_bit(current, VDETOFF_BIT, data),
                final(self)@,
                outcome,
            ),
    {
        self.set_bit(RegisterTable::ExtendedBackupFunction, VDETOFF_BIT, data)
    }

    /// Switches the voltage detector off or on.
    pub fn set_voltage_detector_off(&mut self, data: bool) -> (outcome: Result<(), I2C::Error>)
        ensures
            register_update(
                old(self)@,
                RegisterTable::ExtendedBackupFunction,
                |current: u8| with_bit(current, VDETOFF_BIT, data),
                final(self)@,
                outcome,
            ),
    {
        self.set_vdetoff(data)
    }

    /// Writes the switch off bit.
    pub fn set_swoff(&mut self, data: bool) -> (outcome: Result<(), I2C::Error>)
        ensures
            register_update(
                old(self)@,
                RegisterTable::ExtendedBackupFunction,
                |current: u8| with_bit(current, SWOFF_BIT, data),
                final(self)@,
                outcome,
            ),
    {
        self.set_bit(RegisterTable::ExtendedBackupFunction, SWOFF_BIT, data)
    }

    /// Holds the backup power switch off, or lets it go.
    pub fn set_switch_off(&mut self, data: bool) -> (outcome: Result<(), I2C::Error>)
        ensures
            register_update(
                old(self)@,
                RegisterTable::ExtendedBackupFunction,
                |current: u8| with_bit(current, SWOFF_BIT, data),
                final(self)@,
                outcome,
            ),
    {
        self.set_swoff(data)
    }

    /// Writes the upper backup mode sampling time bit.
    pub fn set_bksmp1(&mut self, data: bool) -> (outcome: Result<(), I2C::Error>)
        ensures
            register_update(
                old(self)@,
                RegisterTable::ExtendedBackupFunction,
                |current: u8| with_bit(current, BKSMP1_BIT, data),
                final(self)@,
                outcome,
            ),
    {
        self.set_bit(RegisterTable::ExtendedBackupFunction, BKSMP1_BIT, data)
    }

    /// Writes the lower backup mode sampling time bit.
    pub fn set_bksmp0(&mut self, data: bool) -> (outcome: Result<(), I2C::Error>)
        ensures
            register_update(
                old(self)@,
                RegisterTable::ExtendedBackupFunction,
                |current: u8| with_bit(current, BKSMP0_BIT, data),
                final(self)@,
                outcome,
            ),
    {
        self.set_bit(RegisterTable::ExtendedBackupFunction, BKSMP0_BIT, data)
    }

    /// Writes the backup mode sampling time selection, the lowest two bits
    /// of `data`, and keeps the other bits of the register as they were
    /// read.
    pub fn set_bksmp(&mut self, data: u8) -> (outcome: Result<(), I2C::Error>)
        ensures
            register_update(
                old(self)@,
                RegisterTable::ExtendedBackupFunction,
                |current: u8| with_field(current, BKSMP_MASK, BKSMP_SHIFT, data & BKSMP_MASK),
                final(self)@,
                outcome,
            ),
    {
        let current = self.read_register(RegisterTable::ExtendedBackupFunction)?;
        let data = replace_field(current, BKSMP_MASK, BKSMP_SHIFT, data & BKSMP_MASK);
        self.write_register(RegisterTable::ExtendedBackupFunction, data)
    }

    /// Writes the backup mode sampling time selection.
    pub fn set_backup_mode_sampling_time(&mut self, data: u8) -> (outcome: Result<(), I2C::Error>)
        ensures
            register_update(
                old(self)@,
                RegisterTable::ExtendedBackupFunction,
                |current: u8| with_field(current, BKSMP_MASK, BKSMP_SHIFT, data & BKSMP_MASK),
                final(self)@,
                outcome,
            ),
    {
        self.set_bksmp(data)
    }
}

} // verus!
