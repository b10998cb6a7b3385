//! The flag register: update, timer and alarm flags, and the two voltage
//! flags.

use crate::access::{decoded_read, register_update};
use crate::bits::{bit_is_set, with_bit};
use crate::driver::Rx8900;
use crate::registers::RegisterTable;
use crate::transport::Transport;
use vstd::prelude::*;

verus! {

/// The position of the update flag.
pub const UF_BIT: u8 = 5;

/// The position of the timer flag.
pub const TF_BIT: u8 = 4;

/// The position of the alarm flag.
pub const AF_BIT: u8 = 3;

/// The position of the voltage low flag.
pub const VLF_BIT: u8 = 1;

/// The position of the voltage detect flag.
pub const VDET_BIT: u8 = 0;

impl<I2C: Transport> Rx8900<I2C> {
    /// Reads the update flag.
    pub fn uf(&mut self) -> (outcome: Result<bool, I2C::Error>)
        ensures
            decoded_read(
                old(self)@,
                RegisterTable::CompatibleFlagRegister,
                |raw: u8| bit_is_set(raw, UF_BIT),
                final(self)@,
                outcome,
            ),
    {
        self.read_register_1bit(RegisterTable::CompatibleFlagRegister, UF_BIT)
    }

    /// Reads whether a time update has happened.
    pub fn update_flag(&mut self) -> (outcome: Result<bool, I2C::Error>)
        ensures
            decoded_read(
                old(self)@,
                RegisterTable::CompatibleFlagRegister,
                |raw: u8| bit_is_set(raw, UF_BIT),
                final(self)@,
                outcome,
            ),
    {
        self.uf()
    }

    /// Reads the timer flag.
    pub fn tf(&mut self) -> (outcome: Result<bool, I2C::Error>)
        ensures
            decoded_read(
                old(self)@,
                RegisterTable::CompatibleFlagRegister,
                |raw: u8| bit_is_set(raw, TF_BIT),
                final(self)@,
                outcome,
            ),
    {
        self.read_register_1bit(RegisterTable::CompatibleFlagRegister, TF_BIT)
    }

    /// Reads whether the timer has run out.
    pub fn timer_flag(&mut self) -> (outcome: Result<bool, I2C::Error>)
        ensures
            decoded_read(
                old(self)@,
                RegisterTable::CompatibleFlagRegister,
                |raw: u8| bit_is_set(raw, TF_BIT),
                final(self)@,
                outcome,
            ),
    {
        self.tf()
    }

    /// Reads the alarm flag.
    pub fn af(&mut self) -> (outcome: Result<bool, I2C::Error>)
        ensures
            decoded_read(
                old(self)@,
                RegisterTable::CompatibleFlagRegister,
                |raw: u8| bit_is_set(raw, AF_BIT),
                final(self)@,
                outcome,
            ),
    {
        self.read_register_1bit(RegisterTable::CompatibleFlagRegister, AF_BIT)
    }

    /// Reads whether the alarm has gone off.
    pub fn alarm_flag(&mut self) -> (outcome: Result<bool, I2C::Error>)
        ensures
            decoded_read(
                old(self)@,
                RegisterTable::CompatibleFlagRegister,
                |raw: u8| bit_is_set(raw, AF_BIT),
                final(self)@,
                outcome,
            ),
    {
        self.af()
    }

    /// Reads the voltage low flag.
    pub fn vlf(&mut self) -> (outcome: Result<bool, I2C::Error>)
        ensures
            decoded_read(
                old(self)@,
                RegisterTable::CompatibleFlagRegister,
                |raw: u8| bit_is_set(raw, VLF_BIT),
                final(self)@,
                outcome,
            ),
    {
        self.read_register_1bit(RegisterTable::CompatibleFlagRegister, VLF_BIT)
    }

    /// Reads whether the supply voltage has dropped so far that the time may
    /// be lost.
    pub fn voltage_low_flag(&mut self) -> (outcome: Result<bool, I2C::Error>)
        ensures
            decoded_read(
                old(self)@,
                RegisterTable::CompatibleFlagRegister,
                |raw: u8| bit_is_set(raw, VLF_BIT),
                final(self)@,
                outcome,
            ),
    {
        self.vlf()
    }

    /// Reads the voltage detect flag.
    pub fn vdet(&mut self) -> (outcome: Result<bool, I2C::Error>)
        ensures
            decoded_read(
                old(self)@,
                RegisterTable::CompatibleFlagRegister,
                |raw: u8| bit_is_set(raw, VDET_BIT),
                final(self)@,
                outcome,
            ),
    {
        self.read_register_1bit(RegisterTable::CompatibleFlagRegister, VDET_BIT)
    }

    /// Reads whether the supply voltage has dropped so far that the
    /// temperature compensation may have stopped.
    pub fn voltage_detect_flag(&mut self) -> (outcome: Result<bool, I2C::Error>)
        ensures
            decoded_read(
                old(self)@,
                RegisterTable::CompatibleFlagRegister,
                |raw: u8| bit_is_set(raw, VDET_BIT),
                final(self)@,
                outcome,
            ),
    {
        self.vdet()
    }

    /// Clears the update flag.
    pub fn set_uf(&mut self) -> (outcome: Result<(), I2C::Error>)
        ensures
            register_update(
                old(self)@,
                RegisterTable::CompatibleFlagRegister,
                |current: u8| with_bit(current, UF_BIT, false),
                final(self)@,
                outcome,
            ),
    {
        self.set_bit(RegisterTable::CompatibleFlagRegister, UF_BIT, false)
    }

    /// Clears the update flag.
    pub fn set_update_flag(&mut self) -> (outcome: Result<(), I2C::Error>)
        ensures
            register_update(
                old(self)@,
                RegisterTable::CompatibleFlagRegister,
                |current: u8| with_bit(current, UF_BIT, false),
                final(self)@,
                outcome,
            ),
    {
        self.set_uf()
    }

    /// Writes the timer flag.
    pub fn set_tf(&mut self, data: bool) -> (outcome: Result<(), I2C::Error>)
        ensures
            register_update(
                old(self)@,
                RegisterTable::CompatibleFlagRegister,
                |current: u8| with_bit(current, TF_BIT, data),
                final(self)@,
                outcome,
            ),
    {
        self.set_bit(RegisterTable::CompatibleFlagRegister, TF_BIT, data)
    }

    /// Clears the timer flag.
    pub fn reset_timer_flag(&mut self) -> (outcome: Result<(), I2C::Error>)
        ensures
            register_update(
                old(self)@,
                RegisterTable::CompatibleFlagRegister,
                |current: u8| with_bit(current, TF_BIT, false),
                final(self)@,
                outcome,
            ),
    {
        self.set_tf(false)
    }

    /// Writes the alarm flag.
    pub fn set_af(&mut self, data: bool) -> (outcome: Result<(), I2C::Error>)
        ensures
            register_update(
                old(self)@,
                RegisterTable::CompatibleFlagRegister,
                |current: u8| with_bit(current, AF_BIT, data),
                final(self)@,
                outcome,
            ),
    {
        self.set_bit(RegisterTable::CompatibleFlagRegister, AF_BIT, data)
    }

    /// Clears the alarm flag.
    pub fn reset_alarm_flag(&mut self) -> (outcome: Result<(), I2C::Error>)
        ensures
            register_update(
                old(self)@,
                RegisterTable::CompatibleFlagRegister,
                |current: u8| with_bit(current, AF_BIT, false),
                final(self)@,
                outcome,
            ),
    {
        self.set_af(false)
    }

    /// Clears the voltage low flag.
    pub fn set_vlf(&mut self) -> (outcome: Result<(), I2C::Error>)
        ensures
            register_update(
                old(self)@,
                RegisterTable::CompatibleFlagRegister,
                |current: u8| with_bit(current, VLF_BIT, false),
                final(self)@,
                outcome,
            ),
    {
        self.set_bit(RegisterTable::CompatibleFlagRegister, VLF_BIT, false)
    }

    /// Clears the voltage low flag.
    pub fn set_voltage_low_flag(&mut self) -> (outcome: Result<(), I2C::Error>)
        ensures
            register_update(
                old(self)@,
                RegisterTable::CompatibleFlagRegister,
                |current: u8| with_bit(current, VLF_BIT, false),
                final(self)@,
                outcome,
            ),
    {
        self.set_vlf()
    }

    /// Clears the voltage detect flag.
    pub fn set_vdet(&mut self) -> (outcome: Result<(), I2C::Error>)
        ensures
            register_update(
                old(self)@,
                RegisterTable::CompatibleFlagRegister,
                |current: u8| with_bit(current, VDET_BIT, false),
                final(self)@,
                outcome,
            ),
    {
        self.set_bit(RegisterTable::CompatibleFlagRegister, VDET_BIT, false)
    }

    /// Clears the voltage detect flag.
    pub fn set_voltage_detect_flag(&mut self) -> (outcome: Result<(), I2C::Error>)
        ensures
            register_update(
                old(self)@,
                RegisterTable::CompatibleFlagRegister,
                |current: u8| with_bit(current, VDET_BIT, false),
                final(self)@,
                outcome,
            ),
    {
        self.set_vdet()
    }
}

} // verus!
