//! The chip's configuration fields as closed sets of choices, each with the
//! code that stands for it in its register field.

use vstd::prelude::*;

verus! {

/// The clock that drives the countdown timer.
#[derive(Clone, Copy, Debug, PartialEq, Eq, Structural)]
pub enum SourceClock {
    SourceClock4096Hz,
    SourceClock64Hz,
    SourceClockSecond,
    SourceClockMinute,
}

/// Whether the alarm compares the day of the week or the day of the month.
#[derive(Clone, Copy, Debug, PartialEq, Eq, Structural)]
pub enum AlarmType {
    WeekAlarm,
    DayAlarm,
}

/// How often the time update interrupt comes.
#[derive(Clone, Copy, Debug, PartialEq, Eq, Structural)]
pub enum UpdateInterruptType {
    EverySecond,
    EveryMinute,
}

/// The frequency put out on the FOUT pin.
#[derive(Clone, Copy, Debug, PartialEq, Eq, Structural)]
pub enum FoutFrequency {
    FoutFrequency32_768kHz,
    FoutFrequency1024Hz,
    FoutFrequency1Hz,
}

/// How often the temperature compensation runs.
#[derive(Clone, Copy, Debug, PartialEq, Eq, Structural)]
pub enum CompensationIntervalType {
    CompensationInterval0_5s,
    CompensationInterval2_0s,
    CompensationInterval10s,
    CompensationInterval30s,
}

impl SourceClock {
    /// The two-bit code of the choice.
    pub open spec fn spec_code(self) -> u8 {
        match self {
            SourceClock::SourceClock4096Hz => 0b00,
            SourceClock::SourceClock64Hz => 0b01,
            SourceClock::SourceClockSecond => 0b10,
            SourceClock::SourceClockMinute => 0b11,
        }
    }

    /// The choice that a two-bit code stands for.
    pub open spec fn of_code(code: u8) -> SourceClock {
        if code == 0b00 {
            SourceClock::SourceClock4096Hz
        } else if code == 0b01 {
            SourceClock::SourceClock64Hz
        } else if code == 0b10 {
            SourceClock::SourceClockSecond
        } else {
            SourceClock::SourceClockMinute
        }
    }

    /// The two-bit code of the choice.
    #[verifier::when_used_as_spec(spec_code)]
    pub fn code(self) -> (code: u8)
        ensures
            code == self.spec_code(),
            code <= 0b11,
    {
        match self {
            SourceClock::SourceClock4096Hz => 0b00,
            SourceClock::SourceClock64Hz => 0b01,
            SourceClock::SourceClockSecond => 0b10,
            SourceClock::SourceClockMinute => 0b11,
        }
    }

    /// The choice that a two-bit code stands for.
    pub fn from_code(code: u8) -> (choice: SourceClock)
        requires
            code <= 0b11,
        ensures
            choice == SourceClock::of_code(code),
    {
        if code == 0b00 {
            SourceClock::SourceClock4096Hz
        } else if code == 0b01 {
            SourceClock::SourceClock64Hz
        } else if code == 0b10 {
            SourceClock::SourceClockSecond
        } else {
            SourceClock::SourceClockMinute
        }
    }
}

impl AlarmType {
    /// Whether the choice is the one that the set bit stands for: the day
    /// alarm.
    pub open spec fn spec_flag(self) -> bool {
        self == AlarmType::DayAlarm
    }

    /// The choice that a bit stands for.
    pub open spec fn of_flag(flag: bool) -> AlarmType {
        if flag {
            AlarmType::DayAlarm
        } else {
            AlarmType::WeekAlarm
        }
    }

    /// Whether the choice is the one that the set bit stands for.
    #[verifier::when_used_as_spec(spec_flag)]
    pub fn flag(self) -> (flag: bool)
        ensures
            flag == self.spec_flag(),
    {
        match self {
            AlarmType::DayAlarm => true,
            AlarmType::WeekAlarm => false,
        }
    }

    /// The choice that a bit stands for.
    pub fn from_flag(flag: bool) -> (choice: AlarmType)
        ensures
            choice == AlarmType::of_flag(flag),
    {
        if flag {
            AlarmType::DayAlarm
        } else {
            AlarmType::WeekAlarm
        }
    }
}

impl UpdateInterruptType {
    /// Whether the choice is the one that the set bit stands for: every
    /// minute.
    pub open spec fn spec_flag(self) -> bool {
        self == UpdateInterruptType::EveryMinute
    }

    /// The choice that a bit stands for.
    pub open spec fn of_flag(flag: bool) -> UpdateInterruptType {
        if flag {
            UpdateInterruptType::EveryMinute
        } else {
            UpdateInterruptType::EverySecond
        }
    }

    /// Whether the choice is the one that the set bit stands for.
    #[verifier::when_used_as_spec(spec_flag)]
    pub fn flag(self) -> (flag: bool)
        ensures
            flag == self.spec_flag(),
    {
        match self {
            UpdateInterruptType::EveryMinute => true,
            UpdateInterruptType::EverySecond => false,
        }
    }

    /// The choice that a bit stands for.
    pub fn from_flag(flag: bool) -> (choice: UpdateInterruptType)
        ensures
            choice == UpdateInterruptType::of_flag(flag),
    {
        if flag {
            UpdateInterruptType::EveryMinute
        } else {
            UpdateInterruptType::EverySecond
        }
    }
}

impl FoutFrequency {
    /// The two-bit code that is written for the choice. 32.768 kHz is
    /// always written as `0b00`.
    pub open spec fn spec_code(self) -> u8 {
        match self {
            FoutFrequency::FoutFrequency32_768kHz => 0b00,
            FoutFrequency::FoutFrequency1024Hz => 0b01,
            FoutFrequency::FoutFrequency1Hz => 0b10,
        }
    }

    /// The choice that a two-bit code stands for. The chip puts out
    /// 32.768 kHz for `0b11` as it does for `0b00`.
    pub open spec fn of_code(code: u8) -> FoutFrequency {
        if code == 0b01 {
            FoutFrequency::FoutFrequency1024Hz
        } else if code == 0b10 {
            FoutFrequency::FoutFrequency1Hz
        } else {
            FoutFrequency::FoutFrequency32_768kHz
        }
    }

    /// The two-bit code that is written for the choice.
    #[verifier::when_used_as_spec(spec_code)]
    pub fn code(self) -> (code: u8)
        ensures
            code == self.spec_code(),
            code <= 0b10,
    {
        match self {
            FoutFrequency::FoutFrequency32_768kHz => 0b00,
            FoutFrequency::FoutFrequency1024Hz => 0b01,
            FoutFrequency::FoutFrequency1Hz => 0b10,
        }
    }

    /// The choice that a two-bit code stands for.
    pub fn from_code(code: u8) -> (choice: FoutFrequency)
        requires
            code <= 0b11,
        ensures
            choice == FoutFrequency::of_code(code),
    {
        if code == 0b00 {
            FoutFrequency::FoutFrequency32_768kHz
        } else if code == 0b01 {
            FoutFrequency::FoutFrequency1024Hz
        } else if code == 0b10 {
            FoutFrequency::FoutFrequency1Hz
        } else {
            FoutFrequency::FoutFrequency32_768kHz
        }
    }
}

impl CompensationIntervalType {
    /// The two-bit code of the choice.
    pub open spec fn spec_code(self) -> u8 {
        match self {
            CompensationIntervalType::CompensationInterval0_5s => 0b00,
            CompensationIntervalType::CompensationInterval2_0s => 0b01,
            CompensationIntervalType::CompensationInterval10s => 0b10,
            CompensationIntervalType::CompensationInterval30s => 0b11,
        }
    }

    /// The choice that a two-bit code stands for.
    pub open spec fn of_code(code: u8) -> CompensationIntervalType {
        if code == 0b00 {
            CompensationIntervalType::CompensationInterval0_5s
        } else if code == 0b01 {
            CompensationIntervalType::CompensationInterval2_0s
        } else if code == 0b10 {
            CompensationIntervalType::CompensationInterval10s
        } else {
            CompensationIntervalType::CompensationInterval30s
        }
    }

    /// The two-bit code of the choice.
    #[verifier::when_used_as_spec(spec_code)]
    pub fn code(self) -> (code: u8)
        ensures
            code == self.spec_code(),
            code <= 0b11,
    {
        match self {
            CompensationIntervalType::CompensationInterval0_5s => 0b00,
            CompensationIntervalType::CompensationInterval2_0s => 0b01,
            CompensationIntervalType::CompensationInterval10s => 0b10,
            CompensationIntervalType::CompensationInterval30s => 0b11,
        }
    }

    /// The choice that a two-bit code stands for.
    pub fn from_code(code: u8) -> (choice: CompensationIntervalType)
        requires
            code <= 0b11,
        ensures
            choice == CompensationIntervalType::of_code(code),
    {
        if code == 0b00 {
            CompensationIntervalType::CompensationInterval0_5s
        } else if code == 0b01 {
            CompensationIntervalType::CompensationInterval2_0s
        } else if code == 0b10 {
            CompensationIntervalType::CompensationInterval10s
        } else {
            CompensationIntervalType::CompensationInterval30s
        }
    }
}

/// Both codes of 32.768 kHz are read as that frequency, and it is written
/// as `0b00`.
pub proof fn lemma_fout_frequency_codes()
    ensures
        FoutFrequency::of_code(0b00) == FoutFrequency::FoutFrequency32_768kHz,
        FoutFrequency::of_code(0b11) == FoutFrequency::FoutFrequency32_768kHz,
        FoutFrequency::FoutFrequency32_768kHz.spec_code() == 0b00,
{
}

/// Reading back the code that was written for a choice gives the choice.
pub proof fn lemma_codes_round_trip(
    clock: SourceClock,
    frequency: FoutFrequency,
    interval: CompensationIntervalType,
    alarm: AlarmType,
    update: UpdateInterruptType,
)
    ensures
        SourceClock::of_code(clock.spec_code()) == clock,
        FoutFrequency::of_code(frequency.spec_code()) == frequency,
        CompensationIntervalType::of_code(interval.spec_code()) == interval,
        AlarmType::of_flag(alarm.spec_flag()) == alarm,
        UpdateInterruptType::of_flag(update.spec_flag()) == update,
{
}

} // verus!
