//! The main loop's decisions: booting from the persisted configuration, and
//! applying each received command to the tracker, the pulse timer, the
//! direction pin and the EEPROM.
use vstd::prelude::*;
use vstd::string::StringSliceAdditionalSpecFns;
use crate::command::{command_of, InputVariant};
use crate::eeprom::{
    increment_startups, lemma_store_then_read, next_count, read_startups, read_waiting_time,
    store_u32, stored_u32, write_waiting_time, Eeprom, BASE_ADDR_STARTUPS, BASE_ADDR_TIME,
};
use crate::serial::{decimal_digits, echo_text, status_text, SerialHandler};
use crate::serial_buffer::{empty_line, SerialBuffer};
use crate::state_machine::{EQTracker, State};
use crate::timer::{
    compare_match_spec, compare_value, duration_fits, init, set_duration, set_timer_status,
    TimerStructure, MAX_HALF_PERIOD,
};

verus! {

/// The half-period of fast-forward mode, in microseconds.
pub const FAST_FORWARD_HALF_PERIOD: u32 = 1200;

/// The watchdog's timeout, in milliseconds.
pub const WATCHDOG_TIMEOUT_MS: u32 = 500;

pub const MSG_TRACK: &'static str = "Track!\n";

pub const MSG_NEW_DURATION: &'static str = "Track with new duration: ";

pub const MSG_DURATION_TOO_LONG: &'static str = "Duration too long: ";

pub const MSG_MICROSECONDS: &'static str = "us\n";

pub const MSG_HOLD: &'static str = "Hold Hold Hold!\n";

pub const MSG_FAST_FORWARD: &'static str = "Fast Forward Mode!\n";

pub const MSG_SAVE_DEFAULT: &'static str = "Write Default Value!\n";

pub const MSG_INVALID: &'static str = "Invalid operation!\n";

pub const MSG_RESET: &'static str = "Reset!\n";

/// The outcome of a command.
#[derive(Clone, Copy, Debug, PartialEq, Eq, Structural)]
pub enum Reply {
    Tracking,
    TrackingWithDuration(u32),
    /// The half-period does not fit the timer; nothing changed.
    DurationRejected(u32),
    Holding,
    FastForwarding,
    DefaultSaved,
    Status { current_time: u32, default_time: u32, starts: u32 },
    /// The watchdog is to be starved.
    ResetRequested,
    Invalid,
}

/// The controller's state as the main loop sees it.
pub struct ControllerView {
    /// The tracker's stored half-period.
    pub velocity: u32,
    pub mode: State,
    /// Whether the direction pin is high.
    pub forward: bool,
    /// The EEPROM's bytes.
    pub cells: Seq<u8>,
}

pub open spec fn view_wf(v: ControllerView) -> bool {
    v.velocity <= MAX_HALF_PERIOD && v.cells.len() == crate::eeprom::EEPROM_SIZE
}

/// The half-period a stored default gives at boot: the longest one the timer
/// can time, where the stored value is longer.
pub open spec fn boot_velocity(stored: u32) -> u32 {
    if stored <= MAX_HALF_PERIOD {
        stored
    } else {
        MAX_HALF_PERIOD
    }
}

/// The state after boot: the startup counter counted once, then the default
/// loaded, in `Track` mode with the direction pin high.
pub open spec fn boot_view(cells: Seq<u8>) -> ControllerView {
    let counted = store_u32(
        cells,
        BASE_ADDR_STARTUPS as int,
        next_count(stored_u32(cells, BASE_ADDR_STARTUPS as int)),
    );
    ControllerView {
        velocity: boot_velocity(stored_u32(counted, BASE_ADDR_TIME as int)),
        mode: State::Track,
        forward: true,
        cells: counted,
    }
}

/// The timer after boot.
pub open spec fn boot_timer(cells: Seq<u8>, t: TimerStructure) -> TimerStructure {
    TimerStructure {
        configured: true,
        interrupt_enabled: true,
        compare: compare_value(boot_view(cells).velocity) as u16,
        ..t
    }
}

/// The timer driven at the given half-period.
pub open spec fn running_timer(t: TimerStructure, duration: u32) -> TimerStructure {
    TimerStructure { interrupt_enabled: true, compare: compare_value(duration) as u16, ..t }
}

/// The state after a command.
pub open spec fn next_view(v: ControllerView, cmd: InputVariant) -> ControllerView {
    match cmd {
        InputVariant::Track => ControllerView { mode: State::Track, forward: true, ..v },
        InputVariant::TrackNewTime(d) => if duration_fits(d) {
            ControllerView { velocity: d, mode: State::Track, forward: true, ..v }
        } else {
            v
        },
        InputVariant::Hold => ControllerView { mode: State::Hold, ..v },
        InputVariant::FastForward(dir) => ControllerView {
            mode: State::FastForward(dir),
            forward: dir,
            ..v
        },
        InputVariant::SetDefault => ControllerView {
            cells: store_u32(v.cells, BASE_ADDR_TIME as int, v.velocity),
            ..v
        },
        _ => v,
    }
}

/// The timer after a command.
pub open spec fn next_timer(v: ControllerView, t: TimerStructure, cmd: InputVariant) -> TimerStructure {
    match cmd {
        InputVariant::Track => running_timer(t, v.velocity),
        InputVariant::TrackNewTime(d) => if duration_fits(d) {
            running_timer(t, d)
        } else {
            t
        },
        InputVariant::Hold => TimerStructure { interrupt_enabled: false, pin_is_high: false, ..t },
        InputVariant::FastForward(_) => running_timer(t, FAST_FORWARD_HALF_PERIOD),
        _ => t,
    }
}

/// The reply to a command.
pub open spec fn reply_of(v: ControllerView, cmd: InputVariant) -> Reply {
    match cmd {
        InputVariant::Track => Reply::Tracking,
        InputVariant::TrackNewTime(d) => if duration_fits(d) {
            Reply::TrackingWithDuration(d)
        } else {
            Reply::DurationRejected(d)
        },
        InputVariant::Hold => Reply::Holding,
        InputVariant::FastForward(_) => Reply::FastForwarding,
        InputVariant::SetDefault => Reply::DefaultSaved,
        InputVariant::Status => Reply::Status {
            current_time: v.velocity,
            default_time: stored_u32(v.cells, BASE_ADDR_TIME as int),
            starts: stored_u32(v.cells, BASE_ADDR_STARTUPS as int),
        },
        InputVariant::Reset => Reply::ResetRequested,
        InputVariant::Invalid => Reply::Invalid,
    }
}

/// The text sent for a reply.
pub open spec fn reply_text(reply: Reply) -> Seq<u8> {
    match reply {
        Reply::Tracking => MSG_TRACK.spec_bytes(),
        Reply::TrackingWithDuration(d) => MSG_NEW_DURATION.spec_bytes() + decimal_digits(d as nat)
            + MSG_MICROSECONDS.spec_bytes(),
        Reply::DurationRejected(d) => MSG_DURATION_TOO_LONG.spec_bytes() + decimal_digits(
            d as nat,
        ) + MSG_MICROSECONDS.spec_bytes(),
        Reply::Holding => MSG_HOLD.spec_bytes(),
        Reply::FastForwarding => MSG_FAST_FORWARD.spec_bytes(),
        Reply::DefaultSaved => MSG_SAVE_DEFAULT.spec_bytes(),
        Reply::Status { current_time, default_time, starts } => status_text(
            current_time,
            default_time,
            starts,
        ),
        Reply::ResetRequested => MSG_RESET.spec_bytes(),
        Reply::Invalid => MSG_INVALID.spec_bytes(),
    }
}

/// The main loop's own state: the tracker, the direction pin, the EEPROM
/// and the serial transmitter.
pub struct Controller {
    tracker: EQTracker,
    direction_forward: bool,
    eeprom: Eeprom,
    serial_handler: SerialHandler,
}

impl View for Controller {
    type V = ControllerView;

    closed spec fn view(&self) -> ControllerView {
        ControllerView {
            velocity: self.tracker.velocity(),
            mode: self.tracker.mode(),
            forward: self.direction_forward,
            cells: self.eeprom@,
        }
    }
}

impl Controller {
    /// The bytes written to the serial line and not yet taken.
    pub closed spec fn output(&self) -> Seq<u8> {
        self.serial_handler@
    }

    pub open spec fn wf(&self) -> bool {
        view_wf(self@)
    }

    /// Boots from the persisted configuration: counts the startup, loads the
    /// default half-period, and starts tracking in the positive direction.
    pub fn boot(eeprom: Eeprom, timer: &mut TimerStructure) -> (r: Controller)
        requires
            eeprom.wf(),
        ensures
            r.wf(),
            r@ == boot_view(eeprom@),
            *final(timer) == boot_timer(eeprom@, *old(timer)),
            r.output() == Seq::<u8>::empty(),
    {
        let mut eeprom = eeprom;
        increment_startups(&mut eeprom);
        let stored = read_waiting_time(&eeprom);
        let waiting_time = if stored <= MAX_HALF_PERIOD {
            stored
        } else {
            MAX_HALF_PERIOD
        };
        init(timer);
        let _ = set_duration(timer, waiting_time);
        set_timer_status(timer, true);
        let tracker = EQTracker::new(waiting_time);
        Controller { tracker, direction_forward: true, eeprom, serial_handler: SerialHandler::new() }
    }

    /// The stored half-period.
    pub fn velocity(&self) -> (r: u32)
        ensures
            r == self@.velocity,
    {
        self.tracker.get_waiting_time()
    }

    /// The current mode.
    pub fn mode(&self) -> (r: State)
        ensures
            r == self@.mode,
    {
        self.tracker.get_state()
    }

    /// Whether the direction pin is high.
    pub fn direction_forward(&self) -> (r: bool)
        ensures
            r == self@.forward,
    {
        self.direction_forward
    }

    /// The EEPROM's contents.
    pub fn eeprom(&self) -> (r: &Eeprom)
        ensures
            r@ == self@.cells,
    {
        &self.eeprom
    }

    /// Hands out the bytes written to the serial line, to be sent.
    pub fn take_output(&mut self) -> (r: Vec<u8>)
        ensures
            r@ == old(self).output(),
            final(self).output() == Seq::<u8>::empty(),
            final(self)@ == old(self)@,
    {
        self.serial_handler.take_output()
    }

    fn start_at(&mut self, timer: &mut TimerStructure, duration: u32)
        requires
            duration <= MAX_HALF_PERIOD,
        ensures
            *final(timer) == running_timer(*old(timer), duration),
            final(self)@ == old(self)@,
            final(self).output() == old(self).output(),
    {
        let _ = set_duration(timer, duration);
        set_timer_status(timer, true);
    }

    /// Applies a command: sets the mode, the timer, the direction pin and
    /// the EEPROM as the transition table says, and returns the reply.
    pub fn apply(&mut self, command: InputVariant, timer: &mut TimerStructure) -> (r: Reply)
        requires
            old(self).wf(),
        ensures
            final(self).wf(),
            final(self)@ == next_view(old(self)@, command),
            *final(timer) == next_timer(old(self)@, *old(timer), command),
            r == reply_of(old(self)@, command),
            final(self).output() == old(self).output(),
    {
        match command {
            InputVariant::Track => {
                self.tracker.set_state(State::Track);
                let duration = self.tracker.get_waiting_time();
                self.start_at(timer, duration);
                self.direction_forward = true;
                Reply::Tracking
            },
            InputVariant::TrackNewTime(duration) => {
                if duration > MAX_HALF_PERIOD {
                    Reply::DurationRejected(duration)
                } else {
                    self.tracker.set_state(State::Track);
                    self.tracker.set_waiting_time(duration);
                    self.start_at(timer, duration);
                    self.direction_forward = true;
                    Reply::TrackingWithDuration(duration)
                }
            },
            InputVariant::Hold => {
                self.tracker.set_state(State::Hold);
                set_timer_status(timer, false);
                Reply::Holding
            },
            InputVariant::FastForward(direction) => {
                self.tracker.set_state(State::FastForward(direction));
                self.start_at(timer, FAST_FORWARD_HALF_PERIOD);
                self.direction_forward = direction;
                Reply::FastForwarding
            },
            InputVariant::SetDefault => {
                let duration = self.tracker.get_waiting_time();
                write_waiting_time(duration, &mut self.eeprom);
                Reply::DefaultSaved
            },
            InputVariant::Status => {
                let current_time = self.tracker.get_waiting_time();
                let default_time = read_waiting_time(&self.eeprom);
                let starts = read_startups(&self.eeprom);
                Reply::Status { current_time, default_time, starts }
            },
            InputVariant::Reset => Reply::ResetRequested,
            InputVariant::Invalid => Reply::Invalid,
        }
    }

    /// Writes the text of a reply to the serial line.
    pub fn write_reply(&mut self, reply: Reply)
        ensures
            final(self)@ == old(self)@,
            final(self).output() == old(self).output() + reply_text(reply),
    {
        match reply {
            Reply::Tracking => self.serial_handler.write_str(MSG_TRACK),
            Reply::TrackingWithDuration(d) => {
                self.serial_handler.write_str(MSG_NEW_DURATION);
                self.serial_handler.write_number(d);
                self.serial_handler.write_str(MSG_MICROSECONDS);
                assert(self.output() =~= old(self).output() + reply_text(reply));
            },
            Reply::DurationRejected(d) => {
                self.serial_handler.write_str(MSG_DURATION_TOO_LONG);
                self.serial_handler.write_number(d);
                self.serial_handler.write_str(MSG_MICROSECONDS);
                assert(self.output() =~= old(self).output() + reply_text(reply));
            },
            Reply::Holding => self.serial_handler.write_str(MSG_HOLD),
            Reply::FastForwarding => self.serial_handler.write_str(MSG_FAST_FORWARD),
            Reply::DefaultSaved => self.serial_handler.write_str(MSG_SAVE_DEFAULT),
            Reply::Status { current_time, default_time, starts } => self.serial_handler.send_status(
                current_time,
                default_time,
                starts,
            ),
            Reply::ResetRequested => self.serial_handler.write_str(MSG_RESET),
            Reply::Invalid => self.serial_handler.write_str(MSG_INVALID),
        }
    }

    /// One iteration of the main loop: drains a complete line, echoes it,
    /// applies its command and writes the reply. Returns whether the
    /// watchdog is to be fed, which is so unless a reset was requested.
    pub fn step(&mut self, serial_buffer: &mut SerialBuffer, timer: &mut TimerStructure) -> (r: bool)
        requires
            old(self).wf(),
            old(serial_buffer).wf(),
        ensures
            final(self).wf(),
            final(serial_buffer).wf(),
            ({
                let line = old(serial_buffer).view();
                let cmd = command_of(line.bytes);
                if line.complete {
                    &&& final(serial_buffer).view() == empty_line()
                    &&& final(self)@ == next_view(old(self)@, cmd)
                    &&& *final(timer) == next_timer(old(self)@, *old(timer), cmd)
                    &&& final(self).output() == old(self).output() + echo_text(line.bytes)
                        + reply_text(reply_of(old(self)@, cmd))
                    &&& r == (cmd != InputVariant::Reset)
                } else {
                    &&& final(serial_buffer).view() == line
                    &&& final(self)@ == old(self)@
                    &&& *final(timer) == *old(timer)
                    &&& final(self).output() == old(self).output()
                    &&& r
                }
            }),
    {
        match self.serial_handler.handle_input(serial_buffer) {
            Some(command) => {
                let reply = self.apply(command, timer);
                self.write_reply(reply);
                assert(self.output() =~= old(self).output() + echo_text(
                    old(serial_buffer).view().bytes,
                ) + reply_text(reply));
                match reply {
                    Reply::ResetRequested => false,
                    _ => true,
                }
            },
            None => true,
        }
    }
}

/// A new half-period that fits the timer is what the status report gives as
/// the current velocity, whatever default is persisted.
pub proof fn lemma_status_reports_new_duration(v: ControllerView, d: u32)
    requires
        duration_fits(d),
    ensures
        reply_of(next_view(v, InputVariant::TrackNewTime(d)), InputVariant::Status) matches Reply::Status {
            current_time,
            ..
        } && current_time == d,
{
}

/// A half-period that fits the timer, saved as the default, is the one the
/// controller boots with after a power cycle.
pub proof fn lemma_saved_default_survives_reboot(v: ControllerView, d: u32)
    requires
        view_wf(v),
        duration_fits(d),
    ensures
        boot_view(next_view(next_view(v, InputVariant::TrackNewTime(d)), InputVariant::SetDefault).cells).velocity
            == d,
{
    let saved = next_view(next_view(v, InputVariant::TrackNewTime(d)), InputVariant::SetDefault).cells;
    lemma_store_then_read(v.cells, BASE_ADDR_TIME as int, d, BASE_ADDR_STARTUPS as int);
    let count = next_count(stored_u32(saved, BASE_ADDR_STARTUPS as int));
    lemma_store_then_read(saved, BASE_ADDR_STARTUPS as int, count, BASE_ADDR_TIME as int);
}

/// After `Hold` the step pin is low and the compare-match interrupt off, so
/// that no compare match can raise the pin again.
pub proof fn lemma_hold_leaves_pin_low(v: ControllerView, t: TimerStructure)
    ensures
        !next_timer(v, t, InputVariant::Hold).pin_is_high,
        !next_timer(v, t, InputVariant::Hold).interrupt_enabled,
        compare_match_spec(next_timer(v, t, InputVariant::Hold)) == next_timer(v, t, InputVariant::Hold),
{
}

} // verus!
