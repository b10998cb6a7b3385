use rx8900::{
    AlarmType, BusError, CompensationIntervalType, DateTime, FoutFrequency, RegisterFile,
    RegisterTable, Rx8900, SourceClock, UpdateInterruptType, Weekday,
};

const EXT: RegisterTable = RegisterTable::CompatibleExtensionRegister;
const FLAG: RegisterTable = RegisterTable::CompatibleFlagRegister;
const CTRL: RegisterTable = RegisterTable::CompatibleControlRegister;
const BACKUP: RegisterTable = RegisterTable::ExtendedBackupFunction;

fn chip_with(register: RegisterTable, value: u8) -> Rx8900<RegisterFile> {
    let mut chip = RegisterFile::new();
    chip.set_register(register, value);
    Rx8900::new(chip)
}

fn chip_filled_with(value: u8) -> Rx8900<RegisterFile> {
    Rx8900::new(RegisterFile::with_registers([value; 32]))
}

fn held(rtc: &Rx8900<RegisterFile>, register: RegisterTable) -> u8 {
    rtc.transport().register(register)
}

#[test]
fn read_register_hands_back_the_byte() {
    let mut rtc = chip_with(RegisterTable::CompatibleRAM, 0x42);
    assert_eq!(rtc.read_register(RegisterTable::CompatibleRAM), Ok(0x42));
    assert_eq!(rtc.read_register(RegisterTable::CompatibleSEC), Ok(0));
}

#[test]
fn write_register_stores_the_byte() {
    let mut rtc = chip_filled_with(0x11);
    assert_eq!(rtc.write_register(RegisterTable::CompatibleRAM, 0x42), Ok(()));
    assert_eq!(held(&rtc, RegisterTable::CompatibleRAM), 0x42);
    assert_eq!(held(&rtc, RegisterTable::CompatibleYEAR), 0x11);
    assert_eq!(held(&rtc, RegisterTable::CompatibleMinAlarm), 0x11);
}

#[test]
fn read_register_1bit_tests_each_bit() {
    let mut rtc = chip_with(FLAG, 0b1010_0101);
    let expected = [true, false, true, false, false, true, false, true];
    for bit in 0u8..8 {
        assert_eq!(rtc.read_register_1bit(FLAG, bit), Ok(expected[bit as usize]));
    }
}

#[test]
fn set_bit_then_read_bit_keeps_other_bits() {
    for preset in [0x00u8, 0xFF, 0xA5, 0x5A, 0x81] {
        for bit in 0u8..8 {
            for data in [false, true] {
                let mut rtc = chip_filled_with(0x3C);
                assert_eq!(rtc.write_register(CTRL, preset), Ok(()));
                assert_eq!(rtc.set_bit(CTRL, bit, data), Ok(()));
                assert_eq!(rtc.read_register_1bit(CTRL, bit), Ok(data));
                let mask = 1u8 << bit;
                assert_eq!(held(&rtc, CTRL) & !mask, preset & !mask);
                assert_eq!(held(&rtc, EXT), 0x3C);
                assert_eq!(held(&rtc, FLAG), 0x3C);
            }
        }
    }
}

#[test]
fn time_registers_are_read_as_bcd_under_their_masks() {
    let mut chip = RegisterFile::new();
    chip.set_register(RegisterTable::CompatibleSEC, 0x80 | 0x59);
    chip.set_register(RegisterTable::CompatibleMIN, 0x80 | 0x34);
    chip.set_register(RegisterTable::CompatibleHOUR, 0xC0 | 0x23);
    chip.set_register(RegisterTable::CompatibleDAY, 0xC0 | 0x31);
    chip.set_register(RegisterTable::CompatibleMONTH, 0xE0 | 0x12);
    chip.set_register(RegisterTable::CompatibleYEAR, 0x99);
    let mut rtc = Rx8900::new(chip);
    assert_eq!(rtc.sec(), Ok(59));
    assert_eq!(rtc.min(), Ok(34));
    assert_eq!(rtc.hour(), Ok(23));
    assert_eq!(rtc.day(), Ok(31));
    assert_eq!(rtc.month(), Ok(12));
    assert_eq!(rtc.year(), Ok(99));
}

#[test]
fn year_register_is_read_without_a_mask() {
    let mut rtc = chip_with(RegisterTable::CompatibleYEAR, 0xFF);
    assert_eq!(rtc.year(), Ok(165));
}

#[test]
fn time_registers_are_written_as_bcd() {
    let mut rtc = Rx8900::new(RegisterFile::new());
    assert_eq!(rtc.set_sec(58), Ok(()));
    assert_eq!(rtc.set_min(47), Ok(()));
    assert_eq!(rtc.set_hour(21), Ok(()));
    assert_eq!(rtc.set_day(30), Ok(()));
    assert_eq!(rtc.set_month(11), Ok(()));
    assert_eq!(rtc.set_year(99), Ok(()));
    assert_eq!(held(&rtc, RegisterTable::CompatibleSEC), 0x58);
    assert_eq!(held(&rtc, RegisterTable::CompatibleMIN), 0x47);
    assert_eq!(held(&rtc, RegisterTable::CompatibleHOUR), 0x21);
    assert_eq!(held(&rtc, RegisterTable::CompatibleDAY), 0x30);
    assert_eq!(held(&rtc, RegisterTable::CompatibleMONTH), 0x11);
    assert_eq!(held(&rtc, RegisterTable::CompatibleYEAR), 0x99);
}

#[test]
fn setters_mask_before_encoding() {
    let mut rtc = Rx8900::new(RegisterFile::new());
    assert_eq!(rtc.set_sec(0x80 | 12), Ok(()));
    assert_eq!(rtc.set_hour(0xC0 | 7), Ok(()));
    assert_eq!(rtc.set_month(0xE0 | 9), Ok(()));
    assert_eq!(rtc.set_year(255), Ok(()));
    assert_eq!(held(&rtc, RegisterTable::CompatibleSEC), 0x12);
    assert_eq!(held(&rtc, RegisterTable::CompatibleHOUR), 0x07);
    assert_eq!(held(&rtc, RegisterTable::CompatibleMONTH), 0x09);
    assert_eq!(held(&rtc, RegisterTable::CompatibleYEAR), 0x95);
}

#[test]
fn ram_round_trip() {
    let mut rtc = Rx8900::new(RegisterFile::new());
    assert_eq!(rtc.set_ram(0xA7), Ok(()));
    assert_eq!(rtc.ram(), Ok(0xA7));
    assert_eq!(held(&rtc, RegisterTable::CompatibleRAM), 0xA7);
}

#[test]
fn week_is_read_from_its_one_hot_byte() {
    let mut rtc = chip_with(RegisterTable::CompatibleWEEK, 0b0001000);
    assert_eq!(rtc.week(), Ok(Some(Weekday::Wed)));
    let mut rtc = chip_with(RegisterTable::CompatibleWEEK, 0b1000000);
    assert_eq!(rtc.week(), Ok(Some(Weekday::Sat)));
}

#[test]
fn week_has_no_day_for_a_malformed_byte() {
    for byte in [0x00u8, 0b0000011, 0x80, 0x81, 0xFF] {
        let mut rtc = chip_with(RegisterTable::CompatibleWEEK, byte);
        assert_eq!(rtc.week(), Ok(None));
    }
}

#[test]
fn set_week_writes_the_one_hot_byte() {
    let mut rtc = chip_filled_with(0xFF);
    assert_eq!(rtc.set_week(Weekday::Mon), Ok(()));
    assert_eq!(held(&rtc, RegisterTable::CompatibleWEEK), 0b0000010);
    assert_eq!(rtc.week(), Ok(Some(Weekday::Mon)));
}

#[test]
fn minute_alarm() {
    let mut rtc = Rx8900::new(RegisterFile::new());
    assert_eq!(rtc.set_min_alarm(30, true), Ok(()));
    assert_eq!(held(&rtc, RegisterTable::CompatibleMinAlarm), 0xB0);
    assert_eq!(rtc.min_alarm(), Ok(30));
    assert_eq!(rtc.min_alarm_enabled(), Ok(true));
    assert_eq!(rtc.set_min_alarm(59, false), Ok(()));
    assert_eq!(held(&rtc, RegisterTable::CompatibleMinAlarm), 0x59);
    assert_eq!(rtc.min_alarm(), Ok(59));
    assert_eq!(rtc.min_alarm_enabled(), Ok(false));
}

#[test]
fn hour_alarm() {
    let mut rtc = Rx8900::new(RegisterFile::new());
    assert_eq!(rtc.set_hour_alarm(23, true), Ok(()));
    assert_eq!(held(&rtc, RegisterTable::CompatibleHourAlarm), 0xA3);
    assert_eq!(rtc.hour_alarm(), Ok(23));
    assert_eq!(rtc.hour_alarm_enabled(), Ok(true));
    assert_eq!(rtc.set_hour_alarm(7, false), Ok(()));
    assert_eq!(held(&rtc, RegisterTable::CompatibleHourAlarm), 0x07);
    assert_eq!(rtc.hour_alarm_enabled(), Ok(false));
}

#[test]
fn day_alarm() {
    let mut rtc = Rx8900::new(RegisterFile::new());
    assert_eq!(rtc.set_day_alarm(15, true), Ok(()));
    assert_eq!(held(&rtc, RegisterTable::CompatibleWeekDayAlarm), 0x95);
    assert_eq!(rtc.day_alarm(), Ok(15));
    assert_eq!(rtc.day_alarm_enabled(), Ok(true));
    assert_eq!(rtc.week_alarm_enabled(), Ok(true));
    assert_eq!(rtc.set_day_alarm(28, false), Ok(()));
    assert_eq!(held(&rtc, RegisterTable::CompatibleWeekDayAlarm), 0x28);
    assert_eq!(rtc.day_alarm_enabled(), Ok(false));
}

#[test]
fn week_alarm_lists_the_days_of_the_set_bits() {
    let mut rtc = chip_with(RegisterTable::CompatibleWeekDayAlarm, 0b0100101);
    let days = rtc.week_alarm().unwrap();
    assert_eq!(days.as_slice(), &[Weekday::Sun, Weekday::Tue, Weekday::Fri]);

    let mut rtc = chip_with(RegisterTable::CompatibleWeekDayAlarm, 0);
    assert!(rtc.week_alarm().unwrap().is_empty());

    let mut rtc = chip_with(RegisterTable::CompatibleWeekDayAlarm, 0xFF);
    let days = rtc.week_alarm().unwrap();
    assert_eq!(
        days.as_slice(),
        &[
            Weekday::Sun,
            Weekday::Mon,
            Weekday::Tue,
            Weekday::Wed,
            Weekday::Thu,
            Weekday::Fri,
            Weekday::Sat
        ]
    );

    let mut rtc = chip_with(RegisterTable::CompatibleWeekDayAlarm, 0x80);
    assert!(rtc.week_alarm().unwrap().is_empty());
}

#[test]
fn set_week_alarm_lays_the_days_over_each_other() {
    let mut days: heapless::Vec<Weekday, 7> = heapless::Vec::new();
    days.push(Weekday::Wed).unwrap();
    days.push(Weekday::Mon).unwrap();
    days.push(Weekday::Wed).unwrap();
    let mut rtc = chip_filled_with(0xFF);
    assert_eq!(rtc.set_week_alarm(&days), Ok(()));
    assert_eq!(held(&rtc, RegisterTable::CompatibleWeekDayAlarm), 0b0001010);
    assert_eq!(rtc.week_alarm().unwrap().as_slice(), &[Weekday::Mon, Weekday::Wed]);
    assert_eq!(rtc.week_alarm_enabled(), Ok(false));

    let none: heapless::Vec<Weekday, 7> = heapless::Vec::new();
    assert_eq!(rtc.set_week_alarm(&none), Ok(()));
    assert_eq!(held(&rtc, RegisterTable::CompatibleWeekDayAlarm), 0);
}

#[test]
fn timer_counter_is_low_byte_first() {
    let mut chip = RegisterFile::new();
    chip.set_register(RegisterTable::CompatibleTimerCounter0, 0x34);
    chip.set_register(RegisterTable::CompatibleTimerCounter1, 0x12);
    let mut rtc = Rx8900::new(chip);
    assert_eq!(rtc.timer_counter0(), Ok(0x34));
    assert_eq!(rtc.timer_counter1(), Ok(0x12));
    assert_eq!(rtc.timer_counter(), Ok(0x1234));
}

#[test]
fn set_timer_counter_splits_the_count() {
    let mut rtc = Rx8900::new(RegisterFile::new());
    assert_eq!(rtc.set_timer_counter(0xBEEF), Ok(()));
    assert_eq!(held(&rtc, RegisterTable::CompatibleTimerCounter0), 0xEF);
    assert_eq!(held(&rtc, RegisterTable::CompatibleTimerCounter1), 0xBE);
    assert_eq!(rtc.timer_counter(), Ok(0xBEEF));
    assert_eq!(rtc.set_timer_counter0(0x01), Ok(()));
    assert_eq!(rtc.set_timer_counter1(0x02), Ok(()));
    assert_eq!(rtc.timer_counter(), Ok(0x0201));
}

#[test]
fn temp_is_the_raw_byte() {
    let mut rtc = chip_with(RegisterTable::ExtendedTEMP, 0x9C);
    assert_eq!(rtc.temp(), Ok(0x9C));
}

#[test]
fn extension_register_bits_are_read() {
    let mut rtc = chip_with(EXT, 0b1010_0110);
    assert_eq!(rtc.test(), Ok(true));
    assert_eq!(rtc.wada(), Ok(false));
    assert_eq!(rtc.usel(), Ok(true));
    assert_eq!(rtc.te(), Ok(false));
    assert_eq!(rtc.timer_enable(), Ok(false));
    assert_eq!(rtc.fsel1(), Ok(false));
    assert_eq!(rtc.fsel0(), Ok(true));
    assert_eq!(rtc.tsel1(), Ok(true));
    assert_eq!(rtc.tsel0(), Ok(false));
    assert_eq!(rtc.fsel(), Ok(0b01));
    assert_eq!(rtc.tsel(), Ok(0b10));
    assert_eq!(rtc.alarm_type(), Ok(AlarmType::WeekAlarm));
    assert_eq!(rtc.update_interrupt_type(), Ok(UpdateInterruptType::EveryMinute));
    assert_eq!(rtc.fout_frequency(), Ok(FoutFrequency::FoutFrequency1024Hz));
    assert_eq!(rtc.source_clock(), Ok(SourceClock::SourceClockSecond));
}

#[test]
fn extension_register_bits_are_written() {
    let mut rtc = Rx8900::new(RegisterFile::new());
    assert_eq!(rtc.set_test(true), Ok(()));
    assert_eq!(held(&rtc, EXT), 0b1000_0000);
    assert_eq!(rtc.set_wada(true), Ok(()));
    assert_eq!(held(&rtc, EXT), 0b1100_0000);
    assert_eq!(rtc.set_usel(true), Ok(()));
    assert_eq!(held(&rtc, EXT), 0b1110_0000);
    assert_eq!(rtc.set_te(true), Ok(()));
    assert_eq!(held(&rtc, EXT), 0b1111_0000);
    assert_eq!(rtc.set_fsel1(true), Ok(()));
    assert_eq!(held(&rtc, EXT), 0b1111_1000);
    assert_eq!(rtc.set_fsel0(true), Ok(()));
    assert_eq!(held(&rtc, EXT), 0b1111_1100);
    assert_eq!(rtc.set_tsel1(true), Ok(()));
    assert_eq!(held(&rtc, EXT), 0b1111_1110);
    assert_eq!(rtc.set_tsel0(true), Ok(()));
    assert_eq!(held(&rtc, EXT), 0b1111_1111);
    assert_eq!(rtc.reset_timer_enable(), Ok(()));
    assert_eq!(held(&rtc, EXT), 0b1110_1111);
    assert_eq!(rtc.set_timer_enable(), Ok(()));
    assert_eq!(held(&rtc, EXT), 0b1111_1111);
    assert_eq!(rtc.set_test(false), Ok(()));
    assert_eq!(rtc.set_wada(false), Ok(()));
    assert_eq!(rtc.set_usel(false), Ok(()));
    assert_eq!(held(&rtc, EXT), 0b0001_1111);
}

#[test]
fn alarm_and_update_selection() {
    let mut rtc = chip_with(EXT, 0b1001_1111);
    assert_eq!(rtc.set_alarm_type(AlarmType::DayAlarm), Ok(()));
    assert_eq!(held(&rtc, EXT), 0b1101_1111);
    assert_eq!(rtc.alarm_type(), Ok(AlarmType::DayAlarm));
    assert_eq!(rtc.set_update_interrupt_type(UpdateInterruptType::EveryMinute), Ok(()));
    assert_eq!(held(&rtc, EXT), 0b1111_1111);
    assert_eq!(rtc.set_alarm_type(AlarmType::WeekAlarm), Ok(()));
    assert_eq!(rtc.set_update_interrupt_type(UpdateInterruptType::EverySecond), Ok(()));
    assert_eq!(held(&rtc, EXT), 0b1001_1111);
    assert_eq!(rtc.alarm_type(), Ok(AlarmType::WeekAlarm));
    assert_eq!(rtc.update_interrupt_type(), Ok(UpdateInterruptType::EverySecond));
}

#[test]
fn fout_frequency_reads_both_codes_of_32_768_khz() {
    let mut rtc = chip_with(EXT, 0b0000_0000);
    assert_eq!(rtc.fout_frequency(), Ok(FoutFrequency::FoutFrequency32_768kHz));
    let mut rtc = chip_with(EXT, 0b0000_1100);
    assert_eq!(rtc.fout_frequency(), Ok(FoutFrequency::FoutFrequency32_768kHz));
    let mut rtc = chip_with(EXT, 0b1111_1111);
    assert_eq!(rtc.fout_frequency(), Ok(FoutFrequency::FoutFrequency32_768kHz));
    let mut rtc = chip_with(EXT, 0b0000_1000);
    assert_eq!(rtc.fout_frequency(), Ok(FoutFrequency::FoutFrequency1Hz));
}

#[test]
fn fout_frequency_32_768_khz_is_written_as_zero() {
    let mut rtc = chip_with(EXT, 0b1111_1111);
    assert_eq!(rtc.set_fout_frequency(FoutFrequency::FoutFrequency32_768kHz), Ok(()));
    assert_eq!(held(&rtc, EXT), 0b1111_0011);
    assert_eq!(rtc.fsel(), Ok(0b00));
    assert_eq!(rtc.set_fout_frequency(FoutFrequency::FoutFrequency1024Hz), Ok(()));
    assert_eq!(held(&rtc, EXT), 0b1111_0111);
    assert_eq!(rtc.set_fout_frequency(FoutFrequency::FoutFrequency1Hz), Ok(()));
    assert_eq!(held(&rtc, EXT), 0b1111_1011);
    assert_eq!(rtc.fout_frequency(), Ok(FoutFrequency::FoutFrequency1Hz));
}

#[test]
fn set_fsel_does_not_cut_the_data() {
    let mut rtc = chip_with(EXT, 0b0000_0001);
    assert_eq!(rtc.set_fsel(0b10), Ok(()));
    assert_eq!(held(&rtc, EXT), 0b0000_1001);
    assert_eq!(rtc.set_fsel(0xFF), Ok(()));
    assert_eq!(held(&rtc, EXT), 0b1111_1101);
}

#[test]
fn source_clock_round_trip() {
    let all = [
        (SourceClock::SourceClock4096Hz, 0b00),
        (SourceClock::SourceClock64Hz, 0b01),
        (SourceClock::SourceClockSecond, 0b10),
        (SourceClock::SourceClockMinute, 0b11),
    ];
    for (clock, code) in all {
        let mut rtc = chip_with(EXT, 0b1010_1111);
        assert_eq!(rtc.set_source_clock(clock), Ok(()));
        assert_eq!(held(&rtc, EXT), 0b1010_1100 | code);
        assert_eq!(rtc.source_clock(), Ok(clock));
        assert_eq!(rtc.tsel(), Ok(code));
    }
}

#[test]
fn set_tsel_does_not_cut_the_data() {
    let mut rtc = chip_with(EXT, 0b0101_0111);
    assert_eq!(rtc.set_tsel(0b01), Ok(()));
    assert_eq!(held(&rtc, EXT), 0b0101_0101);
    assert_eq!(rtc.set_tsel(0b1000_0010), Ok(()));
    assert_eq!(held(&rtc, EXT), 0b1101_0110);
}

#[test]
fn flag_register_bits_are_read() {
    let mut rtc = chip_with(FLAG, 0b0010_1010);
    assert_eq!(rtc.uf(), Ok(true));
    assert_eq!(rtc.update_flag(), Ok(true));
    assert_eq!(rtc.tf(), Ok(false));
    assert_eq!(rtc.timer_flag(), Ok(false));
    assert_eq!(rtc.af(), Ok(true));
    assert_eq!(rtc.alarm_flag(), Ok(true));
    assert_eq!(rtc.vlf(), Ok(true));
    assert_eq!(rtc.voltage_low_flag(), Ok(true));
    assert_eq!(rtc.vdet(), Ok(false));
    assert_eq!(rtc.voltage_detect_flag(), Ok(false));
}

#[test]
fn flags_are_cleared() {
    let mut rtc = chip_with(FLAG, 0xFF);
    assert_eq!(rtc.set_uf(), Ok(()));
    assert_eq!(held(&rtc, FLAG), 0b1101_1111);
    assert_eq!(rtc.reset_timer_flag(), Ok(()));
    assert_eq!(held(&rtc, FLAG), 0b1100_1111);
    assert_eq!(rtc.reset_alarm_flag(), Ok(()));
    assert_eq!(held(&rtc, FLAG), 0b1100_0111);
    assert_eq!(rtc.set_vlf(), Ok(()));
    assert_eq!(held(&rtc, FLAG), 0b1100_0101);
    assert_eq!(rtc.set_vdet(), Ok(()));
    assert_eq!(held(&rtc, FLAG), 0b1100_0100);

    let mut rtc = chip_with(FLAG, 0xFF);
    assert_eq!(rtc.set_update_flag(), Ok(()));
    assert_eq!(rtc.set_voltage_low_flag(), Ok(()));
    assert_eq!(rtc.set_voltage_detect_flag(), Ok(()));
    assert_eq!(held(&rtc, FLAG), 0b1101_1100);
    assert_eq!(rtc.set_tf(false), Ok(()));
    assert_eq!(rtc.set_af(false), Ok(()));
    assert_eq!(held(&rtc, FLAG), 0b1100_0100);
    assert_eq!(rtc.set_tf(true), Ok(()));
    assert_eq!(rtc.set_af(true), Ok(()));
    assert_eq!(held(&rtc, FLAG), 0b1101_1100);
}

#[test]
fn control_register_bits_are_read() {
    let mut rtc = chip_with(CTRL, 0b1010_1001);
    assert_eq!(rtc.csel1(), Ok(true));
    assert_eq!(rtc.csel0(), Ok(false));
    assert_eq!(rtc.csel(), Ok(0b10));
    assert_eq!(
        rtc.compensation_interval_type(),
        Ok(CompensationIntervalType::CompensationInterval10s)
    );
    assert_eq!(rtc.uie(), Ok(true));
    assert_eq!(rtc.update_interrupt_enable(), Ok(true));
    assert_eq!(rtc.tie(), Ok(false));
    assert_eq!(rtc.timer_interrupt_enable(), Ok(false));
    assert_eq!(rtc.aie(), Ok(true));
    assert_eq!(rtc.alarm_interrupt_enable(), Ok(true));
    assert_eq!(rtc.reset(), Ok(true));
}

#[test]
fn control_register_bits_are_written() {
    let mut rtc = Rx8900::new(RegisterFile::new());
    assert_eq!(rtc.set_csel1(true), Ok(()));
    assert_eq!(rtc.set_csel0(true), Ok(()));
    assert_eq!(held(&rtc, CTRL), 0b1100_0000);
    assert_eq!(rtc.set_uie(true), Ok(()));
    assert_eq!(rtc.set_timer_interrupt_enable(), Ok(()));
    assert_eq!(rtc.set_alarm_interrupt_enable(), Ok(()));
    assert_eq!(held(&rtc, CTRL), 0b1111_1000);
    assert_eq!(rtc.set_reset(true), Ok(()));
    assert_eq!(held(&rtc, CTRL), 0b1111_1001);
    assert_eq!(rtc.set_update_interrupt_enable(false), Ok(()));
    assert_eq!(rtc.reset_timer_interrupt_enable(), Ok(()));
    assert_eq!(rtc.reset_alarm_interrupt_enable(), Ok(()));
    assert_eq!(held(&rtc, CTRL), 0b1100_0001);
    assert_eq!(rtc.set_tie(true), Ok(()));
    assert_eq!(rtc.set_aie(true), Ok(()));
    assert_eq!(rtc.set_update_interrupt_enable(true), Ok(()));
    assert_eq!(rtc.set_reset(false), Ok(()));
    assert_eq!(held(&rtc, CTRL), 0b1111_1000);
}

#[test]
fn compensation_interval_round_trip() {
    let all = [
        (CompensationIntervalType::CompensationInterval0_5s, 0b00),
        (CompensationIntervalType::CompensationInterval2_0s, 0b01),
        (CompensationIntervalType::CompensationInterval10s, 0b10),
        (CompensationIntervalType::CompensationInterval30s, 0b11),
    ];
    for (interval, code) in all {
        let mut rtc = chip_with(CTRL, 0b1011_0101);
        assert_eq!(rtc.set_compensation_interval_type(interval), Ok(()));
        assert_eq!(held(&rtc, CTRL), 0b0011_0101 | (code << 6));
        assert_eq!(rtc.compensation_interval_type(), Ok(interval));
        assert_eq!(rtc.csel(), Ok(code));
    }
}

#[test]
fn set_csel_keeps_only_two_bits_of_the_data() {
    let mut rtc = chip_with(CTRL, 0b0011_1111);
    assert_eq!(rtc.set_csel(0b01), Ok(()));
    assert_eq!(held(&rtc, CTRL), 0b0111_1111);
    assert_eq!(rtc.set_csel(0b1111_1110), Ok(()));
    assert_eq!(held(&rtc, CTRL), 0b1011_1111);
}

#[test]
fn backup_register_bits_are_read() {
    let mut rtc = chip_with(BACKUP, 0b0000_1010);
    assert_eq!(rtc.vdetoff(), Ok(true));
    assert_eq!(rtc.voltage_detector_off(), Ok(true));
    assert_eq!(rtc.swoff(), Ok(false));
    assert_eq!(rtc.switch_off(), Ok(false));
    assert_eq!(rtc.bksmp1(), Ok(true));
    assert_eq!(rtc.bksmp0(), Ok(false));
    assert_eq!(rtc.bksmp(), Ok(0b10));
    assert_eq!(rtc.backup_mode_sampling_time(), Ok(0b10));
}

#[test]
fn backup_register_bits_are_written() {
    let mut rtc = Rx8900::new(RegisterFile::new());
    assert_eq!(rtc.set_vdetoff(true), Ok(()));
    assert_eq!(rtc.set_swoff(true), Ok(()));
    assert_eq!(rtc.set_bksmp1(true), Ok(()));
    assert_eq!(rtc.set_bksmp0(true), Ok(()));
    assert_eq!(held(&rtc, BACKUP), 0b0000_1111);
    assert_eq!(rtc.set_voltage_detector_off(false), Ok(()));
    assert_eq!(rtc.set_switch_off(false), Ok(()));
    assert_eq!(held(&rtc, BACKUP), 0b0000_0011);
    assert_eq!(rtc.set_bksmp1(false), Ok(()));
    assert_eq!(held(&rtc, BACKUP), 0b0000_0001);
}

#[test]
fn set_bksmp_keeps_only_two_bits_of_the_data() {
    let mut rtc = chip_with(BACKUP, 0b1111_1100);
    assert_eq!(rtc.set_bksmp(0b10), Ok(()));
    assert_eq!(held(&rtc, BACKUP), 0b1111_1110);
    assert_eq!(rtc.set_backup_mode_sampling_time(0b1111_1101), Ok(()));
    assert_eq!(held(&rtc, BACKUP), 0b1111_1101);
    let mut rtc = chip_with(BACKUP, 0b0000_0011);
    assert_eq!(rtc.set_bksmp(0xFC), Ok(()));
    assert_eq!(held(&rtc, BACKUP), 0b0000_0000);
}

#[test]
fn init_from_set_registers() {
    let mut rtc = chip_filled_with(0xFF);
    assert_eq!(rtc.init(), Ok(()));
    assert_eq!(held(&rtc, EXT), 0b0110_0011);
    assert_eq!(held(&rtc, FLAG), 0b1111_1100);
    assert_eq!(held(&rtc, CTRL), 0b1100_0111);
    assert_eq!(held(&rtc, BACKUP), 0b1111_0111);
    assert_eq!(held(&rtc, RegisterTable::CompatibleSEC), 0xFF);
    assert_eq!(held(&rtc, RegisterTable::ExtendedControlRegister), 0xFF);
}

#[test]
fn init_from_clear_registers() {
    let mut rtc = Rx8900::new(RegisterFile::new());
    assert_eq!(rtc.init(), Ok(()));
    assert_eq!(held(&rtc, EXT), 0);
    assert_eq!(held(&rtc, FLAG), 0);
    assert_eq!(held(&rtc, CTRL), 0);
    assert_eq!(held(&rtc, BACKUP), 0b0000_0100);
}

#[test]
fn datetime_round_trip() {
    let dates = [
        (2001, 2, 3, 4, 5, 6),
        (2000, 1, 1, 0, 0, 0),
        (2024, 2, 29, 12, 30, 45),
        (2050, 10, 20, 19, 9, 10),
        (2099, 12, 31, 23, 59, 59),
    ];
    for (year, month, day, hour, minute, second) in dates {
        let stored = DateTime::new(year, month, day, hour, minute, second).unwrap();
        let mut rtc = chip_filled_with(0xFF);
        assert_eq!(rtc.set_datetime(stored), Ok(()));
        assert_eq!(rtc.datetime(), Ok(Some(stored)));
    }
}

#[test]
fn datetime_round_trip_in_every_year_of_the_century() {
    for year in 2000..=2099 {
        let stored = DateTime::new(year, 2, 3, 4, 5, 6).unwrap();
        let mut rtc = Rx8900::new(RegisterFile::new());
        assert_eq!(rtc.set_datetime(stored), Ok(()));
        assert_eq!(rtc.datetime(), Ok(Some(stored)));
    }
}

#[test]
fn set_datetime_writes_seven_registers() {
    let mut rtc = chip_filled_with(0xFF);
    let stored = DateTime::new(2001, 2, 3, 4, 5, 6).unwrap();
    assert_eq!(rtc.set_datetime(stored), Ok(()));
    assert_eq!(held(&rtc, RegisterTable::CompatibleYEAR), 0x01);
    assert_eq!(held(&rtc, RegisterTable::CompatibleMONTH), 0x02);
    assert_eq!(held(&rtc, RegisterTable::CompatibleDAY), 0x03);
    assert_eq!(held(&rtc, RegisterTable::CompatibleWEEK), 0b1000000);
    assert_eq!(held(&rtc, RegisterTable::CompatibleHOUR), 0x04);
    assert_eq!(held(&rtc, RegisterTable::CompatibleMIN), 0x05);
    assert_eq!(held(&rtc, RegisterTable::CompatibleSEC), 0x06);
    assert_eq!(held(&rtc, RegisterTable::CompatibleRAM), 0xFF);
    assert_eq!(rtc.week(), Ok(Some(Weekday::Sat)));
}

#[test]
fn set_datetime_keeps_the_year_within_the_century() {
    let mut rtc = Rx8900::new(RegisterFile::new());
    let stored = DateTime::new(1999, 12, 31, 23, 59, 59).unwrap();
    assert_eq!(rtc.set_datetime(stored), Ok(()));
    assert_eq!(held(&rtc, RegisterTable::CompatibleYEAR), 0x99);
    assert_eq!(rtc.datetime(), Ok(DateTime::new(2099, 12, 31, 23, 59, 59)));
}

#[test]
fn datetime_does_not_read_the_weekday_register() {
    let mut rtc = Rx8900::new(RegisterFile::new());
    let stored = DateTime::new(2001, 2, 3, 4, 5, 6).unwrap();
    assert_eq!(rtc.set_datetime(stored), Ok(()));
    assert_eq!(rtc.set_week(Weekday::Mon), Ok(()));
    let read = rtc.datetime().unwrap().unwrap();
    assert_eq!(read, stored);
    assert_eq!(read.weekday(), Weekday::Sat);
    assert_eq!(rtc.week(), Ok(Some(Weekday::Mon)));
}

#[test]
fn datetime_reads_an_invalid_hour_as_midnight() {
    let mut rtc = Rx8900::new(RegisterFile::new());
    let stored = DateTime::new(2001, 2, 3, 4, 5, 6).unwrap();
    assert_eq!(rtc.set_datetime(stored), Ok(()));
    assert_eq!(rtc.write_register(RegisterTable::CompatibleHOUR, 0x29), Ok(()));
    assert_eq!(rtc.hour(), Ok(29));
    assert_eq!(rtc.datetime(), Ok(DateTime::new(2001, 2, 3, 0, 0, 0)));
}

#[test]
fn datetime_reads_hour_register_0x90_as_midnight() {
    let mut chip = RegisterFile::new();
    chip.set_register(RegisterTable::CompatibleSEC, 0x06);
    chip.set_register(RegisterTable::CompatibleMIN, 0x05);
    chip.set_register(RegisterTable::CompatibleHOUR, 0x90);
    chip.set_register(RegisterTable::CompatibleDAY, 0x03);
    chip.set_register(RegisterTable::CompatibleMONTH, 0x02);
    chip.set_register(RegisterTable::CompatibleYEAR, 0x01);
    let mut rtc = Rx8900::new(chip);
    assert_eq!(rtc.datetime(), Ok(DateTime::new(2001, 2, 3, 0, 0, 0)));
    assert_eq!(rtc.hour(), Ok(10));
}

#[test]
fn datetime_decodes_every_byte_whole() {
    let stored = DateTime::new(2001, 2, 3, 4, 5, 6).unwrap();
    let midnight = DateTime::new(2001, 2, 3, 0, 0, 0);
    let mut rtc = Rx8900::new(RegisterFile::new());
    assert_eq!(rtc.set_datetime(stored), Ok(()));
    assert_eq!(rtc.write_register(RegisterTable::CompatibleSEC, 0x80 | 0x06), Ok(()));
    assert_eq!(rtc.sec(), Ok(6));
    assert_eq!(rtc.datetime(), Ok(midnight));
    assert_eq!(rtc.write_register(RegisterTable::CompatibleSEC, 0x06), Ok(()));
    assert_eq!(rtc.write_register(RegisterTable::CompatibleMIN, 0x80 | 0x05), Ok(()));
    assert_eq!(rtc.min(), Ok(5));
    assert_eq!(rtc.datetime(), Ok(midnight));
    assert_eq!(rtc.write_register(RegisterTable::CompatibleMIN, 0x05), Ok(()));
    assert_eq!(rtc.datetime(), Ok(Some(stored)));
    assert_eq!(rtc.write_register(RegisterTable::CompatibleMONTH, 0x20 | 0x02), Ok(()));
    assert_eq!(rtc.month(), Ok(2));
    assert_eq!(rtc.datetime(), Ok(None));
    assert_eq!(rtc.write_register(RegisterTable::CompatibleMONTH, 0x02), Ok(()));
    assert_eq!(rtc.write_register(RegisterTable::CompatibleDAY, 0x40 | 0x03), Ok(()));
    assert_eq!(rtc.day(), Ok(3));
    assert_eq!(rtc.datetime(), Ok(None));
}

#[test]
fn set_week_alarm_takes_a_day_named_twice() {
    let mut days: heapless::Vec<Weekday, 7> = heapless::Vec::new();
    days.push(Weekday::Sat).unwrap();
    days.push(Weekday::Sun).unwrap();
    days.push(Weekday::Sat).unwrap();
    let mut rtc = chip_filled_with(0xFF);
    assert_eq!(rtc.set_week_alarm(&days), Ok(()));
    assert_eq!(held(&rtc, RegisterTable::CompatibleWeekDayAlarm), 0x41);
}

#[test]
fn datetime_reads_invalid_minutes_and_seconds_as_midnight() {
    let mut rtc = Rx8900::new(RegisterFile::new());
    let stored = DateTime::new(2031, 12, 24, 18, 30, 0).unwrap();
    assert_eq!(rtc.set_datetime(stored), Ok(()));
    assert_eq!(rtc.write_register(RegisterTable::CompatibleMIN, 0x60), Ok(()));
    assert_eq!(rtc.datetime(), Ok(DateTime::new(2031, 12, 24, 0, 0, 0)));
    assert_eq!(rtc.write_register(RegisterTable::CompatibleMIN, 0x30), Ok(()));
    assert_eq!(rtc.write_register(RegisterTable::CompatibleSEC, 0x7F), Ok(()));
    assert_eq!(rtc.datetime(), Ok(DateTime::new(2031, 12, 24, 0, 0, 0)));
}

#[test]
fn datetime_has_no_value_for_a_date_that_does_not_exist() {
    let mut rtc = Rx8900::new(RegisterFile::new());
    assert_eq!(rtc.datetime(), Ok(None));
    let stored = DateTime::new(2001, 2, 3, 4, 5, 6).unwrap();
    assert_eq!(rtc.set_datetime(stored), Ok(()));
    assert_eq!(rtc.write_register(RegisterTable::CompatibleDAY, 0x30), Ok(()));
    assert_eq!(rtc.datetime(), Ok(None));
}

#[test]
fn failing_read_is_reported() {
    let mut chip = RegisterFile::new();
    chip.set_register(RegisterTable::CompatibleRAM, 0x42);
    chip.fail_after(0);
    let mut rtc = Rx8900::new(chip);
    assert_eq!(rtc.ram(), Err(BusError::Injected));
    assert_eq!(rtc.ram(), Ok(0x42));
}

#[test]
fn failing_write_is_reported_and_changes_nothing() {
    let mut chip = RegisterFile::new();
    chip.set_register(RegisterTable::CompatibleRAM, 0x42);
    chip.fail_after(0);
    let mut rtc = Rx8900::new(chip);
    assert_eq!(rtc.set_ram(0x99), Err(BusError::Injected));
    assert_eq!(held(&rtc, RegisterTable::CompatibleRAM), 0x42);
}

#[test]
fn set_bit_stops_at_a_failing_read() {
    let mut chip = RegisterFile::with_registers([0xFF; 32]);
    chip.fail_after(0);
    let mut rtc = Rx8900::new(chip);
    assert_eq!(rtc.set_bit(CTRL, 3, false), Err(BusError::Injected));
    assert_eq!(held(&rtc, CTRL), 0xFF);
    assert_eq!(rtc.set_bit(CTRL, 3, false), Ok(()));
    assert_eq!(held(&rtc, CTRL), 0xF7);
}

#[test]
fn set_bit_reports_a_failing_write() {
    let mut chip = RegisterFile::with_registers([0xFF; 32]);
    chip.fail_after(1);
    let mut rtc = Rx8900::new(chip);
    assert_eq!(rtc.set_bit(CTRL, 3, false), Err(BusError::Injected));
    assert_eq!(held(&rtc, CTRL), 0xFF);
}

#[test]
fn set_datetime_stops_at_the_failing_write_without_rollback() {
    let order = [
        (RegisterTable::CompatibleYEAR, 0x01),
        (RegisterTable::CompatibleMONTH, 0x02),
        (RegisterTable::CompatibleDAY, 0x03),
        (RegisterTable::CompatibleWEEK, 0x40),
        (RegisterTable::CompatibleHOUR, 0x04),
        (RegisterTable::CompatibleMIN, 0x05),
        (RegisterTable::CompatibleSEC, 0x06),
    ];
    let stored = DateTime::new(2001, 2, 3, 4, 5, 6).unwrap();
    for failing in 0..7 {
        let mut chip = RegisterFile::with_registers([0xEE; 32]);
        chip.fail_after(failing as u32);
        let mut rtc = Rx8900::new(chip);
        assert_eq!(rtc.set_datetime(stored), Err(BusError::Injected));
        for (position, (register, value)) in order.iter().enumerate() {
            let expected = if position < failing { *value } else { 0xEE };
            assert_eq!(held(&rtc, *register), expected);
        }
    }
    let mut chip = RegisterFile::with_registers([0xEE; 32]);
    chip.fail_after(7);
    let mut rtc = Rx8900::new(chip);
    assert_eq!(rtc.set_datetime(stored), Ok(()));
    assert_eq!(rtc.sec(), Err(BusError::Injected));
}

#[test]
fn datetime_stops_at_the_failing_read() {
    let stored = DateTime::new(2001, 2, 3, 4, 5, 6).unwrap();
    for failing in 0..6 {
        let mut rtc = Rx8900::new(RegisterFile::new());
        assert_eq!(rtc.set_datetime(stored), Ok(()));
        let mut chip = RegisterFile::new();
        for register in [
            RegisterTable::CompatibleSEC,
            RegisterTable::CompatibleMIN,
            RegisterTable::CompatibleHOUR,
            RegisterTable::CompatibleDAY,
            RegisterTable::CompatibleMONTH,
            RegisterTable::CompatibleYEAR,
        ] {
            chip.set_register(register, held(&rtc, register));
        }
        chip.fail_after(failing);
        let mut rtc = Rx8900::new(chip);
        assert_eq!(rtc.datetime(), Err(BusError::Injected));
        assert_eq!(rtc.datetime(), Ok(Some(stored)));
    }
}

#[test]
fn init_stops_at_the_failing_transaction_without_rollback() {
    let mut chip = RegisterFile::with_registers([0xFF; 32]);
    chip.fail_after(9);
    let mut rtc = Rx8900::new(chip);
    assert_eq!(rtc.init(), Err(BusError::Injected));
    assert_eq!(held(&rtc, EXT), 0b0110_0011);
    assert_eq!(held(&rtc, FLAG), 0xFF);
    assert_eq!(held(&rtc, CTRL), 0xFF);
    assert_eq!(held(&rtc, BACKUP), 0xFF);

    let mut chip = RegisterFile::with_registers([0xFF; 32]);
    chip.fail_after(10);
    let mut rtc = Rx8900::new(chip);
    assert_eq!(rtc.init(), Err(BusError::Injected));
    assert_eq!(held(&rtc, EXT), 0b0110_0011);
    assert_eq!(held(&rtc, FLAG), 0b1111_1110);
    assert_eq!(held(&rtc, CTRL), 0xFF);
    assert_eq!(held(&rtc, BACKUP), 0xFF);

    let mut chip = RegisterFile::with_registers([0xFF; 32]);
    chip.fail_after(12);
    let mut rtc = Rx8900::new(chip);
    assert_eq!(rtc.init(), Err(BusError::Injected));
    assert_eq!(held(&rtc, EXT), 0b0110_0011);
    assert_eq!(held(&rtc, FLAG), 0b1111_1100);
    assert_eq!(held(&rtc, CTRL), 0xFF);
    assert_eq!(held(&rtc, BACKUP), 0xFF);

    let mut chip = RegisterFile::with_registers([0xFF; 32]);
    chip.fail_after(21);
    let mut rtc = Rx8900::new(chip);
    assert_eq!(rtc.init(), Err(BusError::Injected));
    assert_eq!(held(&rtc, CTRL), 0b1100_0111);
    assert_eq!(held(&rtc, BACKUP), 0b1111_0111);

    let mut chip = RegisterFile::with_registers([0xFF; 32]);
    chip.fail_after(22);
    let mut rtc = Rx8900::new(chip);
    assert_eq!(rtc.init(), Ok(()));
    assert_eq!(held(&rtc, BACKUP), 0b1111_0111);
}

#[test]
fn timer_counter_stops_at_the_failing_transaction() {
    let mut chip = RegisterFile::new();
    chip.fail_after(1);
    let mut rtc = Rx8900::new(chip);
    assert_eq!(rtc.set_timer_counter(0x1234), Err(BusError::Injected));
    assert_eq!(held(&rtc, RegisterTable::CompatibleTimerCounter0), 0x34);
    assert_eq!(held(&rtc, RegisterTable::CompatibleTimerCounter1), 0x00);

    let mut chip = RegisterFile::new();
    chip.fail_after(0);
    let mut rtc = Rx8900::new(chip);
    assert_eq!(rtc.set_timer_counter(0x1234), Err(BusError::Injected));
    assert_eq!(held(&rtc, RegisterTable::CompatibleTimerCounter0), 0x00);
    assert_eq!(rtc.timer_counter(), Ok(0));

    let mut chip = RegisterFile::new();
    chip.fail_after(1);
    let mut rtc = Rx8900::new(chip);
    assert_eq!(rtc.timer_counter(), Err(BusError::Injected));
}
