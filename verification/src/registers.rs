//! The register map of the RX8900: a compatible bank at 0x00 to 0x0F and an
//! extended bank at 0x10 to 0x1F.

use vstd::prelude::*;

verus! {

/// The bus address at which the RX8900 answers.
pub const RX8900_ADDR: u8 = 0x32;

/// The named byte-wide locations of the clock chip.
#[derive(Clone, Copy, Debug, PartialEq, Eq, Structural)]
pub enum RegisterTable {
    /// Seconds, BCD.
    CompatibleSEC,
    /// Minutes, BCD.
    CompatibleMIN,
    /// Hours, BCD.
    CompatibleHOUR,
    /// Day of the week, one-hot.
    CompatibleWEEK,
    /// Day of the month, BCD.
    CompatibleDAY,
    /// Month, BCD.
    CompatibleMONTH,
    /// Year within the century, BCD.
    CompatibleYEAR,
    /// One byte of general-purpose memory.
    CompatibleRAM,
    /// Minute alarm.
    CompatibleMinAlarm,
    /// Hour alarm.
    CompatibleHourAlarm,
    /// Week or day alarm.
    CompatibleWeekDayAlarm,
    /// Low byte of the timer counter.
    CompatibleTimerCounter0,
    /// High byte of the timer counter.
    CompatibleTimerCounter1,
    /// Extension register.
    CompatibleExtensionRegister,
    /// Flag register.
    CompatibleFlagRegister,
    /// Control register.
    CompatibleControlRegister,
    /// Mirror of the seconds.
    ExtendedSEC,
    /// Mirror of the minutes.
    ExtendedMIN,
    /// Mirror of the hours.
    ExtendedHOUR,
    /// Mirror of the day of the week.
    ExtendedWEEK,
    /// Mirror of the day of the month.
    ExtendedDAY,
    /// Mirror of the month.
    ExtendedMONTH,
    /// Mirror of the year.
    ExtendedYEAR,
    /// Temperature sensor reading.
    ExtendedTEMP,
    /// Backup power control.
    ExtendedBackupFunction,
    /// Mirror of the timer counter's low byte.
    ExtendedTimerCounter0,
    /// Mirror of the timer counter's high byte.
    ExtendedTimerCounter1,
    /// Mirror of the extension register.
    ExtendedExtensionRegister,
    /// Mirror of the flag register.
    ExtendedFlagRegister,
    /// Mirror of the control register.
    ExtendedControlRegister,
}

impl RegisterTable {
    /// The address that the hardware gives the register.
    pub open spec fn spec_address(self) -> u8 {
        match self {
            RegisterTable::CompatibleSEC => 0x00,
            RegisterTable::CompatibleMIN => 0x01,
            RegisterTable::CompatibleHOUR => 0x02,
            RegisterTable::CompatibleWEEK => 0x03,
            RegisterTable::CompatibleDAY => 0x04,
            RegisterTable::CompatibleMONTH => 0x05,
            RegisterTable::CompatibleYEAR => 0x06,
            RegisterTable::CompatibleRAM => 0x07,
            RegisterTable::CompatibleMinAlarm => 0x08,
            RegisterTable::CompatibleHourAlarm => 0x09,
            RegisterTable::CompatibleWeekDayAlarm => 0x0A,
            RegisterTable::CompatibleTimerCounter0 => 0x0B,
            RegisterTable::CompatibleTimerCounter1 => 0x0C,
            RegisterTable::CompatibleExtensionRegister => 0x0D,
            RegisterTable::CompatibleFlagRegister => 0x0E,
            RegisterTable::CompatibleControlRegister => 0x0F,
            RegisterTable::ExtendedSEC => 0x10,
            RegisterTable::ExtendedMIN => 0x11,
            RegisterTable::ExtendedHOUR => 0x12,
            RegisterTable::ExtendedWEEK => 0x13,
            RegisterTable::ExtendedDAY => 0x14,
            RegisterTable::ExtendedMONTH => 0x15,
            RegisterTable::ExtendedYEAR => 0x16,
            RegisterTable::ExtendedTEMP => 0x17,
            RegisterTable::ExtendedBackupFunction => 0x18,
            RegisterTable::ExtendedTimerCounter0 => 0x1B,
            RegisterTable::ExtendedTimerCounter1 => 0x1C,
            RegisterTable::ExtendedExtensionRegister => 0x1D,
            RegisterTable::ExtendedFlagRegister => 0x1E,
            RegisterTable::ExtendedControlRegister => 0x1F,
        }
    }

    /// The address that the hardware gives the register.
    #[verifier::when_used_as_spec(spec_address)]
    pub fn address(self) -> (address: u8)
        ensures
            address == self.spec_address(),
            address < 0x20,
    {
        match self {
            RegisterTable::CompatibleSEC => 0x00,
            RegisterTable::CompatibleMIN => 0x01,
            RegisterTable::CompatibleHOUR => 0x02,
            RegisterTable::CompatibleWEEK => 0x03,
            RegisterTable::CompatibleDAY => 0x04,
            RegisterTable::CompatibleMONTH => 0x05,
            RegisterTable::CompatibleYEAR => 0x06,
            RegisterTable::CompatibleRAM => 0x07,
            RegisterTable::CompatibleMinAlarm => 0x08,
            RegisterTable::CompatibleHourAlarm => 0x09,
            RegisterTable::CompatibleWeekDayAlarm => 0x0A,
            RegisterTable::CompatibleTimerCounter0 => 0x0B,
            RegisterTable::CompatibleTimerCounter1 => 0x0C,
            RegisterTable::CompatibleExtensionRegister => 0x0D,
            RegisterTable::CompatibleFlagRegister => 0x0E,
            RegisterTable::CompatibleControlRegister => 0x0F,
            RegisterTable::ExtendedSEC => 0x10,
            RegisterTable::ExtendedMIN => 0x11,
            RegisterTable::ExtendedHOUR => 0x12,
            RegisterTable::ExtendedWEEK => 0x13,
            RegisterTable::ExtendedDAY => 0x14,
            RegisterTable::ExtendedMONTH => 0x15,
            RegisterTable::ExtendedYEAR => 0x16,
            RegisterTable::ExtendedTEMP => 0x17,
            RegisterTable::ExtendedBackupFunction => 0x18,
            RegisterTable::ExtendedTimerCounter0 => 0x1B,
            RegisterTable::ExtendedTimerCounter1 => 0x1C,
            RegisterTable::ExtendedExtensionRegister => 0x1D,
            RegisterTable::ExtendedFlagRegister => 0x1E,
            RegisterTable::ExtendedControlRegister => 0x1F,
        }
    }
}

/// No two registers share an address.
pub proof fn lemma_addresses_distinct(a: RegisterTable, b: RegisterTable)
    ensures
        a.spec_address() == b.spec_address() <==> a == b,
{
}

} // verus!
