//! The driver and its field accessor: register reads and writes, single-bit
//! reads, and read-modify-write updates.

use crate::access::{decoded_read, register_read, register_update, register_write};
use crate::bits::{bit_is_set, replace_bit, test_bit, with_bit};
use crate::registers::{RegisterTable, RX8900_ADDR};
use crate::transport::Transport;
use vstd::prelude::*;

verus! {

/// An RX8900 clock chip behind a bus transport. The driver owns the
/// transport for as long as it lives.
pub struct Rx8900<I2C> {
    i2c: I2C,
}

impl<I2C: Transport> View for Rx8900<I2C> {
    type V = I2C;

    /// The transport that the driver holds.
    closed spec fn view(&self) -> I2C {
        self.i2c
    }
}

impl<I2C: Transport> Rx8900<I2C> {
    /// Makes a driver that talks to the chip over `i2c`.
    pub fn new(i2c: I2C) -> (driver: Self)
        ensures
            driver@ == i2c,
    {
        Self { i2c }
    }

    /// The transport that the driver holds.
    pub fn transport(&self) -> (i2c: &I2C)
        ensures
            *i2c == self@,
    {
        &self.i2c
    }

    /// Reads one register.
    pub fn read_register(&mut self, register: RegisterTable) -> (outcome: Result<u8, I2C::Error>)
        ensures
            register_read(old(self)@, register, final(self)@, outcome),
    {
        let mut data = [0u8];
        let address = [register.address()];
        assert(address@ =~= seq![register.spec_address()]);
        match self.i2c.write_read(RX8900_ADDR, &address, &mut data) {
            Ok(_) => {
                assert(data@ =~= seq![data@[0]]);
                Ok(data[0])
            },
            Err(e) => Err(e),
        }
    }

    /// Reads one register and tests one of its bits.
    pub fn read_register_1bit(&mut self, register: RegisterTable, bit: u8) -> (outcome: Result<
        bool,
        I2C::Error,
    >)
        requires
            bit < 8,
        ensures
            decoded_read(
                old(self)@,
                register,
                |raw: u8| bit_is_set(raw, bit),
                final(self)@,
                outcome,
            ),
    {
        let data = self.read_register(register)?;
        Ok(test_bit(data, bit))
    }

    /// Writes one register.
    pub fn write_register(&mut self, register: RegisterTable, data: u8) -> (outcome: Result<
        (),
        I2C::Error,
    >)
        ensures
            register_write(old(self)@, register, data, final(self)@, outcome),
    {
        let bytes = [register.address(), data];
        self.i2c.write(RX8900_ADDR, &bytes)
    }

    /// Sets or clears one bit of a register and keeps its other bits as
    /// they were read.
    pub fn set_bit(&mut self, register: RegisterTable, bit: u8, data: bool) -> (outcome: Result<
        (),
        I2C::Error,
    >)
        requires
            bit < 8,
        ensures
            register_update(
                old(self)@,
                register,
                |current: u8| with_bit(current, bit, data),
                final(self)@,
                outcome,
            ),
    {
        let current = self.read_register(register)?;
        let data = replace_bit(current, bit, data);
        self.write_register(register, data)
    }
}

} // verus!
