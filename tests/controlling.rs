use eq_tracker::command::InputVariant;
use eq_tracker::controller::{Controller, Reply, FAST_FORWARD_HALF_PERIOD};
use eq_tracker::eeprom::{read_startups, read_waiting_time, write_waiting_time, Eeprom};
use eq_tracker::serial_buffer::SerialBuffer;
use eq_tracker::state_machine::{EQTracker, State};
use eq_tracker::timer::{on_compare_match, TimerStructure};

fn stored(default: u32) -> Eeprom {
    let mut e = Eeprom::erased();
    write_waiting_time(default, &mut e);
    e
}

fn copy(e: &Eeprom) -> Eeprom {
    Eeprom::from_bytes(e.as_bytes().to_vec()).unwrap()
}

#[test]
fn tracker_getters_and_setters() {
    let mut t = EQTracker::new(1500);
    assert_eq!(t.get_waiting_time(), 1500);
    assert_eq!(t.get_state(), State::Track);
    t.set_state(State::Hold);
    t.set_waiting_time(42);
    assert_eq!(t.get_state(), State::Hold);
    assert_eq!(t.get_waiting_time(), 42);
}

#[test]
fn boot_loads_default_and_counts_startup() {
    let mut timer = TimerStructure::new();
    let c = Controller::boot(stored(1500), &mut timer);
    assert_eq!(c.velocity(), 1500);
    assert_eq!(c.mode(), State::Track);
    assert!(c.direction_forward());
    assert_eq!(read_startups(c.eeprom()), 0);
    assert!(timer.configured && timer.interrupt_enabled);
    assert_eq!(timer.compare, 375);
}

#[test]
fn boot_clamps_an_erased_default() {
    let mut timer = TimerStructure::new();
    let c = Controller::boot(Eeprom::erased(), &mut timer);
    assert_eq!(c.velocity(), 262143);
    assert_eq!(timer.compare, 65535);
}

#[test]
fn status_after_new_duration_reports_it() {
    let mut timer = TimerStructure::new();
    let mut c = Controller::boot(stored(1500), &mut timer);
    assert_eq!(c.apply(InputVariant::TrackNewTime(2000), &mut timer), Reply::TrackingWithDuration(2000));
    assert_eq!(
        c.apply(InputVariant::Status, &mut timer),
        Reply::Status { current_time: 2000, default_time: 1500, starts: 0 }
    );
}

#[test]
fn saved_default_survives_power_cycle() {
    let mut timer = TimerStructure::new();
    let mut c = Controller::boot(stored(1500), &mut timer);
    c.apply(InputVariant::TrackNewTime(2000), &mut timer);
    assert_eq!(c.apply(InputVariant::SetDefault, &mut timer), Reply::DefaultSaved);
    let mut timer2 = TimerStructure::new();
    let c2 = Controller::boot(copy(c.eeprom()), &mut timer2);
    assert_eq!(c2.velocity(), 2000);
    assert_eq!(read_waiting_time(c2.eeprom()), 2000);
    assert_eq!(read_startups(c2.eeprom()), 1);
}

#[test]
fn hold_leaves_pin_low() {
    let mut timer = TimerStructure::new();
    let mut c = Controller::boot(stored(1500), &mut timer);
    on_compare_match(&mut timer);
    assert!(timer.pin_is_high);
    assert_eq!(c.apply(InputVariant::Hold, &mut timer), Reply::Holding);
    assert!(!timer.pin_is_high);
    on_compare_match(&mut timer);
    assert!(!timer.pin_is_high);
    assert_eq!(c.mode(), State::Hold);
}

#[test]
fn fast_forward_sets_direction_and_period() {
    let mut timer = TimerStructure::new();
    let mut c = Controller::boot(stored(1500), &mut timer);
    c.apply(InputVariant::FastForward(false), &mut timer);
    assert!(!c.direction_forward());
    assert_eq!(c.mode(), State::FastForward(false));
    assert_eq!(timer.compare as u32, FAST_FORWARD_HALF_PERIOD / 4);
    c.apply(InputVariant::Track, &mut timer);
    assert!(c.direction_forward());
    assert_eq!(timer.compare, 375);
    assert_eq!(c.velocity(), 1500);
}

#[test]
fn too_long_duration_changes_nothing() {
    let mut timer = TimerStructure::new();
    let mut c = Controller::boot(stored(1500), &mut timer);
    assert_eq!(c.apply(InputVariant::TrackNewTime(300000), &mut timer), Reply::DurationRejected(300000));
    assert_eq!(c.velocity(), 1500);
    assert_eq!(timer.compare, 375);
}

#[test]
fn step_echoes_and_replies() {
    let mut timer = TimerStructure::new();
    let mut c = Controller::boot(stored(1500), &mut timer);
    let mut buffer = SerialBuffer::new();
    assert!(c.step(&mut buffer, &mut timer));
    assert!(c.take_output().is_empty());
    for b in b"2000\n" {
        buffer.receive_byte(*b);
    }
    assert!(c.step(&mut buffer, &mut timer));
    assert_eq!(c.take_output(), b"Got: 2000\nTrack with new duration: 2000us\n".to_vec());
    for b in b"x\n" {
        buffer.receive_byte(*b);
    }
    assert!(c.step(&mut buffer, &mut timer));
    assert_eq!(c.take_output(), b"Got: x\nInvalid operation!\n".to_vec());
}

#[test]
fn reset_stops_feeding() {
    let mut timer = TimerStructure::new();
    let mut c = Controller::boot(stored(1500), &mut timer);
    let mut buffer = SerialBuffer::new();
    for b in b"r\n" {
        buffer.receive_byte(*b);
    }
    assert!(!c.step(&mut buffer, &mut timer));
    assert_eq!(c.take_output(), b"Got: r\nReset!\n".to_vec());
}
