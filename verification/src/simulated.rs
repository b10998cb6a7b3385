//! A simulated clock chip: thirty-two byte-wide registers behind the bus
//! address of the RX8900, with a switch that makes a chosen transaction
//! fail. It stores what is written and hands back what is stored; it does
//! not count time.

use crate::registers::{RegisterTable, RX8900_ADDR};
use crate::transport::Transport;
use vstd::prelude::*;

verus! {

/// Why a transaction with the simulated chip failed.
#[derive(Clone, Copy, Debug, PartialEq, Eq, Structural)]
pub enum BusError {
    /// The failure that was asked for with `fail_after`.
    Injected,
    /// The transaction was none that the chip answers: another bus address,
    /// a register outside the chip's thirty-two, or a length other than
    /// one register.
    NoAcknowledge,
}

/// What a simulated chip holds.
pub struct RegisterFileView {
    /// The thirty-two registers, by address.
    pub registers: Seq<u8>,
    /// How many transactions still succeed before one fails, if a failure
    /// is due at all.
    pub countdown: Option<nat>,
}

/// A simulated clock chip.
pub struct RegisterFile {
    registers: [u8; 32],
    countdown: Option<u32>,
}

impl View for RegisterFile {
    type V = RegisterFileView;

    closed spec fn view(&self) -> RegisterFileView {
        RegisterFileView {
            registers: self.registers@,
            countdown: match self.countdown {
                Some(left) => Some(left as nat),
                None => None,
            },
        }
    }
}

impl RegisterFileView {
    /// Whether the next transaction is the one that fails.
    pub open spec fn fails_next(self) -> bool {
        self.countdown == Some(0nat)
    }

    /// The chip after a transaction that failed as asked for: the registers
    /// stand, and no further failure is due.
    pub open spec fn failed(self) -> RegisterFileView {
        RegisterFileView { registers: self.registers, countdown: None }
    }

    /// The chip after a transaction that was not made to fail, before any
    /// register changes: one transaction less succeeds before the failure.
    pub open spec fn ticked(self) -> RegisterFileView {
        RegisterFileView {
            registers: self.registers,
            countdown: match self.countdown {
                Some(left) => Some((left - 1) as nat),
                None => None,
            },
        }
    }

    /// Whether the transaction that fails is among the next `count`.
    pub open spec fn fails_within(self, count: nat) -> bool {
        self.countdown matches Some(left) && left < count
    }

    /// The chip after `count` transactions that were not made to fail,
    /// before any register changes.
    pub open spec fn ticked_by(self, count: nat) -> RegisterFileView {
        RegisterFileView {
            registers: self.registers,
            countdown: match self.countdown {
                Some(left) => Some((left - count) as nat),
                None => None,
            },
        }
    }

    /// The chip with other registers.
    pub open spec fn holding(self, registers: Seq<u8>) -> RegisterFileView {
        RegisterFileView { registers, countdown: self.countdown }
    }

    /// The chip with one register replaced.
    pub open spec fn stored(self, address: u8, value: u8) -> RegisterFileView {
        RegisterFileView {
            registers: self.registers.update(address as int, value),
            countdown: self.countdown,
        }
    }

    /// The byte at a register.
    pub open spec fn at(self, register: RegisterTable) -> u8 {
        self.registers[register.spec_address() as int]
    }
}

/// Whether the chip answers a transaction to `address` that names the
/// register `bytes[0]`: it must be the chip's bus address and one of its
/// thirty-two registers.
pub open spec fn answers(address: u8, bytes: Seq<u8>) -> bool {
    address == RX8900_ADDR && bytes.len() >= 1 && bytes[0] < 32
}

impl Transport for RegisterFile {
    type Error = BusError;

    /// A write of a register address and one byte stores the byte. The
    /// transaction that is due to fail changes no register.
    open spec fn write_spec(
        pre: Self,
        address: u8,
        bytes: Seq<u8>,
        post: Self,
        outcome: Result<(), BusError>,
    ) -> bool {
        if pre@.fails_next() {
            post@ == pre@.failed() && outcome == Err::<(), BusError>(BusError::Injected)
        } else if answers(address, bytes) && bytes.len() == 2 {
            post@ == pre@.ticked().stored(bytes[0], bytes[1]) && outcome == Ok::<(), BusError>(())
        } else {
            post@ == pre@.ticked() && outcome == Err::<(), BusError>(BusError::NoAcknowledge)
        }
    }

    /// A write of a register address followed by a read of one byte hands
    /// back what the register holds and changes no register.
    open spec fn write_read_spec(
        pre: Self,
        address: u8,
        bytes: Seq<u8>,
        length: nat,
        post: Self,
        outcome: Result<Seq<u8>, BusError>,
    ) -> bool {
        if pre@.fails_next() {
            post@ == pre@.failed() && outcome == Err::<Seq<u8>, BusError>(BusError::Injected)
        } else if answers(address, bytes) && bytes.len() == 1 && length == 1 {
            post@ == pre@.ticked() && outcome == Ok::<Seq<u8>, BusError>(
                seq![pre@.registers[bytes[0] as int]],
            )
        } else {
            post@ == pre@.ticked() && outcome == Err::<Seq<u8>, BusError>(BusError::NoAcknowledge)
        }
    }

    fn write(&mut self, address: u8, bytes: &[u8]) -> (outcome: Result<(), BusError>) {
        if self.tick() {
            return Err(BusError::Injected);
        }
        if address == RX8900_ADDR && bytes.len() == 2 && bytes[0] < 32 {
            let index = bytes[0] as usize;
            self.registers[index] = bytes[1];
            Ok(())
        } else {
            Err(BusError::NoAcknowledge)
        }
    }

    fn write_read(&mut self, address: u8, bytes: &[u8], buffer: &mut [u8]) -> (outcome: Result<
        (),
        BusError,
    >) {
        if self.tick() {
            return Err(BusError::Injected);
        }
        if address == RX8900_ADDR && bytes.len() == 1 && bytes[0] < 32 && buffer.len() == 1 {
            let index = bytes[0] as usize;
            buffer[0] = self.registers[index];
            assert(buffer@ =~= seq![old(self)@.registers[bytes@[0] as int]]);
            Ok(())
        } else {
            Err(BusError::NoAcknowledge)
        }
    }
}

/// Every simulated chip has thirty-two registers.
pub proof fn lemma_register_count(chip: RegisterFile)
    ensures
        chip@.registers.len() == 32,
{
    broadcast use vstd::array::array_len_matches_n;

}

impl RegisterFile {
    /// A chip whose registers all hold zero and whose transactions do not
    /// fail.
    pub fn new() -> (chip: RegisterFile)
        ensures
            chip@.registers == Seq::new(32, |i: int| 0u8),
            chip@.countdown is None,
    {
        let chip = RegisterFile { registers: [0u8; 32], countdown: None };
        chip
    }

    /// A chip that holds the given registers and whose transactions do not
    /// fail.
    pub fn with_registers(registers: [u8; 32]) -> (chip: RegisterFile)
        ensures
            chip@.registers == registers@,
            chip@.countdown is None,
    {
        RegisterFile { registers, countdown: None }
    }

    /// Lets the next `successes` transactions through and makes the one
    /// after them fail. Later transactions succeed again.
    pub fn fail_after(&mut self, successes: u32)
        ensures
            final(self)@.registers == old(self)@.registers,
            final(self)@.countdown == Some(successes as nat),
    {
        self.countdown = Some(successes);
    }

    /// What a register holds.
    pub fn register(&self, register: RegisterTable) -> (value: u8)
        ensures
            value == self@.at(register),
    {
        let index = register.address() as usize;
        self.registers[index]
    }

    /// Puts a byte into a register, past the bus.
    pub fn set_register(&mut self, register: RegisterTable, value: u8)
        ensures
            final(self)@ == old(self)@.stored(register.spec_address(), value),
    {
        let index = register.address() as usize;
        self.registers[index] = value;
    }

    /// Counts one transaction. Says whether it is the one that fails.
    fn tick(&mut self) -> (fails: bool)
        ensures
            fails == old(self)@.fails_next(),
            fails ==> final(self)@ == old(self)@.failed(),
            !fails ==> final(self)@ == old(self)@.ticked(),
    {
        match self.countdown {
            Some(left) => {
                if left == 0 {
                    self.countdown = None;
                    true
                } else {
                    self.countdown = Some(left - 1);
                    false
                }
            },
            None => false,
        }
    }
}

} // verus!
