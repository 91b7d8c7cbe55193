use eq_tracker::eeprom::{
    increment_startups, read_startups, read_waiting_time, read_word, u8_to_u32, write_waiting_time,
    write_word, Eeprom,
};
use eq_tracker::isr::timer1_compa;
use eq_tracker::timer::{init, on_compare_match, set_duration, set_timer_status, TimerError, TimerStructure};
use eq_tracker::watchdog::Watchdog;

#[test]
fn duration_sets_quarter_as_compare_value() {
    let mut timer = TimerStructure::new();
    init(&mut timer);
    assert!(timer.configured);
    assert_eq!(set_duration(&mut timer, 2000), Ok(()));
    assert_eq!(timer.compare, 500);
    assert_eq!(set_duration(&mut timer, 1203), Ok(()));
    assert_eq!(timer.compare, 300);
    assert_eq!(set_duration(&mut timer, 262143), Ok(()));
    assert_eq!(timer.compare, 65535);
}

#[test]
fn too_long_duration_is_rejected() {
    let mut timer = TimerStructure::new();
    set_duration(&mut timer, 2000).unwrap();
    assert_eq!(set_duration(&mut timer, 262144), Err(TimerError::DurationTooLong));
    assert_eq!(set_duration(&mut timer, u32::MAX), Err(TimerError::DurationTooLong));
    assert_eq!(timer.compare, 500);
}

#[test]
fn compare_match_toggles_only_while_enabled() {
    let mut timer = TimerStructure::new();
    on_compare_match(&mut timer);
    assert!(!timer.pin_is_high);
    set_timer_status(&mut timer, true);
    on_compare_match(&mut timer);
    assert!(timer.pin_is_high);
    let mut cell = Some(timer);
    timer1_compa(&mut cell).unwrap();
    assert!(!cell.unwrap().pin_is_high);
}

#[test]
fn stopping_drives_pin_low() {
    let mut timer = TimerStructure::new();
    set_timer_status(&mut timer, true);
    on_compare_match(&mut timer);
    assert!(timer.pin_is_high);
    set_timer_status(&mut timer, false);
    assert!(!timer.pin_is_high);
    assert!(!timer.interrupt_enabled);
    on_compare_match(&mut timer);
    assert!(!timer.pin_is_high);
}

#[test]
fn eeprom_words_round_trip() {
    let mut eeprom = Eeprom::erased();
    assert_eq!(read_waiting_time(&eeprom), u32::MAX);
    write_waiting_time(2000, &mut eeprom);
    assert_eq!(read_waiting_time(&eeprom), 2000);
    assert_eq!(read_word(0x00F2, &eeprom), 0x07);
    assert_eq!(read_word(0x00F3, &eeprom), 0xD0);
    write_word(0x12, 0x00F0, &mut eeprom);
    assert_eq!(read_waiting_time(&eeprom), 0x120007D0);
}

#[test]
fn startup_counter_wraps_from_erased() {
    let mut eeprom = Eeprom::erased();
    assert_eq!(read_startups(&eeprom), u32::MAX);
    increment_startups(&mut eeprom);
    assert_eq!(read_startups(&eeprom), 0);
    increment_startups(&mut eeprom);
    increment_startups(&mut eeprom);
    assert_eq!(read_startups(&eeprom), 2);
    assert_eq!(read_waiting_time(&eeprom), u32::MAX);
}

#[test]
fn bytes_to_word_big_endian() {
    assert_eq!(u8_to_u32([0x01, 0x02, 0x03, 0x04]), 0x01020304);
    assert_eq!(u8_to_u32([0, 0, 0x07, 0xD0]), 2000);
}

#[test]
fn eeprom_from_bytes_checks_size() {
    assert!(Eeprom::from_bytes(vec![0u8; 10]).is_none());
    let e = Eeprom::from_bytes(vec![0u8; 1024]).unwrap();
    assert_eq!(read_startups(&e), 0);
    assert_eq!(e.as_bytes().len(), 1024);
}

#[test]
fn fed_watchdog_never_resets() {
    let mut w = Watchdog::arm(500);
    for _ in 0..10_000 {
        w.elapse(499);
        w.feed();
        assert!(!w.has_reset());
    }
}

#[test]
fn starved_watchdog_resets() {
    let mut w = Watchdog::arm(500);
    w.elapse(300);
    assert!(!w.has_reset());
    w.elapse(300);
    assert!(w.has_reset());
    w.feed();
    assert!(w.has_reset());
}
