use rx8900::alarm::alarm_register;
use rx8900::bcd::{from_bcd, to_bcd};
use rx8900::bits::{extract_field, replace_bit, replace_field, test_bit};
use rx8900::week_alarm::{days_in_mask, mask_of_days};
use rx8900::weekday::{from_week, to_week, try_from_week};
use rx8900::{
    AlarmType, CompensationIntervalType, FoutFrequency, RegisterTable, SourceClock,
    UpdateInterruptType, Weekday,
};

const DAYS: [Weekday; 7] = [
    Weekday::Sun,
    Weekday::Mon,
    Weekday::Tue,
    Weekday::Wed,
    Weekday::Thu,
    Weekday::Fri,
    Weekday::Sat,
];

#[test]
fn bcd_round_trip_below_one_hundred() {
    for n in 0u8..=99 {
        assert_eq!(from_bcd(to_bcd(n)), n);
    }
}

#[test]
fn bcd_encodes_digits_into_nibbles() {
    assert_eq!(to_bcd(0), 0x00);
    assert_eq!(to_bcd(9), 0x09);
    assert_eq!(to_bcd(10), 0x10);
    assert_eq!(to_bcd(59), 0x59);
    assert_eq!(to_bcd(99), 0x99);
}

#[test]
fn bcd_decodes_nibbles_into_digits() {
    assert_eq!(from_bcd(0x00), 0);
    assert_eq!(from_bcd(0x23), 23);
    assert_eq!(from_bcd(0x59), 59);
    assert_eq!(from_bcd(0x99), 99);
}

#[test]
fn bcd_does_not_reject_large_nibbles() {
    assert_eq!(from_bcd(0x0A), 10);
    assert_eq!(from_bcd(0x9A), 100);
    assert_eq!(from_bcd(0xFF), 165);
}

#[test]
fn bcd_drops_tens_beyond_four_bits() {
    assert_eq!(to_bcd(127), 0xC7);
    assert_eq!(to_bcd(159), 0xF9);
    assert_eq!(to_bcd(160), 0x00);
    assert_eq!(to_bcd(255), 0x95);
}

#[test]
fn weekday_round_trip() {
    for day in DAYS {
        assert_eq!(from_week(to_week(day)), day);
        assert_eq!(try_from_week(to_week(day)), Some(day));
    }
}

#[test]
fn weekday_masks_are_one_hot_from_sunday() {
    assert_eq!(to_week(Weekday::Sun), 0b0000001);
    assert_eq!(to_week(Weekday::Mon), 0b0000010);
    assert_eq!(to_week(Weekday::Tue), 0b0000100);
    assert_eq!(to_week(Weekday::Wed), 0b0001000);
    assert_eq!(to_week(Weekday::Thu), 0b0010000);
    assert_eq!(to_week(Weekday::Fri), 0b0100000);
    assert_eq!(to_week(Weekday::Sat), 0b1000000);
}

#[test]
fn weekday_decode_accepts_only_one_hot_bytes() {
    let mut accepted = 0;
    for byte in 0u8..=255 {
        let one_hot = (byte & 0x7F).count_ones() == 1 && byte & 0x80 == 0;
        assert_eq!(try_from_week(byte).is_some(), one_hot, "byte {byte:#04x}");
        if one_hot {
            accepted += 1;
        }
    }
    assert_eq!(accepted, 7);
    assert_eq!(try_from_week(0), None);
    assert_eq!(try_from_week(0b0000011), None);
    assert_eq!(try_from_week(0b10000000), None);
    assert_eq!(try_from_week(0b10000001), None);
    assert_eq!(try_from_week(0xFF), None);
}

#[test]
fn weekday_decode_gives_no_day_unless_one_day_bit_is_set() {
    for byte in 0u8..=255 {
        if (byte & 0x7F).count_ones() != 1 {
            assert_eq!(try_from_week(byte), None, "byte {byte:#04x}");
        }
    }
    assert_eq!(try_from_week(0b1000_0001), None);
    assert_eq!(try_from_week(0b0100_0001), None);
}

#[test]
fn replacing_a_bit_keeps_the_others() {
    for current in [0x00u8, 0xFF, 0xA5, 0x5A, 0x3C] {
        for bit in 0u8..8 {
            for data in [false, true] {
                let updated = replace_bit(current, bit, data);
                assert_eq!(test_bit(updated, bit), data);
                for other in 0u8..8 {
                    if other != bit {
                        assert_eq!(test_bit(updated, other), test_bit(current, other));
                    }
                }
            }
        }
    }
}

#[test]
fn bit_test_reads_single_bits() {
    assert!(test_bit(0b0001_0000, 4));
    assert!(!test_bit(0b0001_0000, 3));
    assert!(test_bit(0x80, 7));
    assert!(!test_bit(0x7F, 7));
}

#[test]
fn fields_are_cut_out_and_laid_over() {
    assert_eq!(extract_field(0b1010_1100, 0b0000_1100, 2), 0b11);
    assert_eq!(extract_field(0b0100_0000, 0b1100_0000, 6), 0b01);
    assert_eq!(replace_field(0b1111_1111, 0b0000_1100, 2, 0b01), 0b1111_0111);
    assert_eq!(replace_field(0b0000_0000, 0b1100_0000, 6, 0b10), 0b1000_0000);
    assert_eq!(replace_field(0b0000_0001, 0b0000_1100, 2, 0xFF), 0b1111_1101);
}

#[test]
fn fout_frequency_codes() {
    assert_eq!(FoutFrequency::from_code(0b00), FoutFrequency::FoutFrequency32_768kHz);
    assert_eq!(FoutFrequency::from_code(0b01), FoutFrequency::FoutFrequency1024Hz);
    assert_eq!(FoutFrequency::from_code(0b10), FoutFrequency::FoutFrequency1Hz);
    assert_eq!(FoutFrequency::from_code(0b11), FoutFrequency::FoutFrequency32_768kHz);
    assert_eq!(FoutFrequency::FoutFrequency32_768kHz.code(), 0b00);
    assert_eq!(FoutFrequency::FoutFrequency1024Hz.code(), 0b01);
    assert_eq!(FoutFrequency::FoutFrequency1Hz.code(), 0b10);
}

#[test]
fn source_clock_codes() {
    let all = [
        (SourceClock::SourceClock4096Hz, 0b00),
        (SourceClock::SourceClock64Hz, 0b01),
        (SourceClock::SourceClockSecond, 0b10),
        (SourceClock::SourceClockMinute, 0b11),
    ];
    for (clock, code) in all {
        assert_eq!(clock.code(), code);
        assert_eq!(SourceClock::from_code(code), clock);
    }
}

#[test]
fn compensation_interval_codes() {
    let all = [
        (CompensationIntervalType::CompensationInterval0_5s, 0b00),
        (CompensationIntervalType::CompensationInterval2_0s, 0b01),
        (CompensationIntervalType::CompensationInterval10s, 0b10),
        (CompensationIntervalType::CompensationInterval30s, 0b11),
    ];
    for (interval, code) in all {
        assert_eq!(interval.code(), code);
        assert_eq!(CompensationIntervalType::from_code(code), interval);
    }
}

#[test]
fn one_bit_choices() {
    assert!(AlarmType::DayAlarm.flag());
    assert!(!AlarmType::WeekAlarm.flag());
    assert_eq!(AlarmType::from_flag(true), AlarmType::DayAlarm);
    assert_eq!(AlarmType::from_flag(false), AlarmType::WeekAlarm);
    assert!(UpdateInterruptType::EveryMinute.flag());
    assert!(!UpdateInterruptType::EverySecond.flag());
    assert_eq!(UpdateInterruptType::from_flag(true), UpdateInterruptType::EveryMinute);
    assert_eq!(UpdateInterruptType::from_flag(false), UpdateInterruptType::EverySecond);
}

#[test]
fn register_addresses() {
    assert_eq!(RegisterTable::CompatibleSEC.address(), 0x00);
    assert_eq!(RegisterTable::CompatibleYEAR.address(), 0x06);
    assert_eq!(RegisterTable::CompatibleTimerCounter0.address(), 0x0B);
    assert_eq!(RegisterTable::CompatibleTimerCounter1.address(), 0x0C);
    assert_eq!(RegisterTable::CompatibleExtensionRegister.address(), 0x0D);
    assert_eq!(RegisterTable::CompatibleFlagRegister.address(), 0x0E);
    assert_eq!(RegisterTable::CompatibleControlRegister.address(), 0x0F);
    assert_eq!(RegisterTable::ExtendedSEC.address(), 0x10);
    assert_eq!(RegisterTable::ExtendedTEMP.address(), 0x17);
    assert_eq!(RegisterTable::ExtendedBackupFunction.address(), 0x18);
    assert_eq!(RegisterTable::ExtendedTimerCounter0.address(), 0x1B);
    assert_eq!(RegisterTable::ExtendedControlRegister.address(), 0x1F);
}

#[test]
fn alarm_bytes_carry_the_enable_state_in_bit_seven() {
    assert_eq!(alarm_register(30, 0b0111_1111, true), 0xB0);
    assert_eq!(alarm_register(30, 0b0111_1111, false), 0x30);
    assert_eq!(alarm_register(23, 0b0011_1111, true), 0xA3);
    assert_eq!(alarm_register(0, 0b0111_1111, true), 0x80);
    assert_eq!(alarm_register(0xFF, 0b0011_1111, false), 0x63);
}

#[test]
fn alarm_days_are_listed_in_bit_order() {
    assert_eq!(days_in_mask(0b0000_0000).as_slice(), &[]);
    assert_eq!(days_in_mask(0b0000_0001).as_slice(), &[Weekday::Sun]);
    assert_eq!(days_in_mask(0b0100_0010).as_slice(), &[Weekday::Mon, Weekday::Sat]);
    assert_eq!(days_in_mask(0b1000_0100).as_slice(), &[Weekday::Tue]);
    assert_eq!(days_in_mask(0b0111_1111).as_slice(), &DAYS);
}

#[test]
fn alarm_days_fold_into_their_byte() {
    for byte in 0u8..=255 {
        assert_eq!(mask_of_days(&days_in_mask(byte)), byte & 0b0111_1111);
    }
    let mut days: heapless::Vec<Weekday, 7> = heapless::Vec::new();
    for day in [Weekday::Sat, Weekday::Sun, Weekday::Sat] {
        days.push(day).unwrap();
    }
    assert_eq!(mask_of_days(&days), 0b0100_0001);
}
