//! The pulse timer: a 16-bit counter in clear-on-compare mode with a
//! prescaler of 64, whose compare-match interrupt toggles the step pin.
use vstd::prelude::*;

verus! {

/// Microseconds per counter tick: a prescaler of 64 against a 16 MHz clock.
pub const MICROS_PER_TICK: u32 = 4;

/// The largest value the compare register holds.
pub const MAX_COMPARE: u32 = 65535;

/// The longest half-period the counter can time.
pub const MAX_HALF_PERIOD: u32 = 262143;

/// Why a half-period cannot be set.
#[derive(Clone, Copy, Debug, PartialEq, Eq, Structural)]
pub enum TimerError {
    /// The compare value would not fit the 16-bit register.
    DurationTooLong,
}

/// The timer's registers as the controller sets them, and the step pin that
/// its interrupt drives.
#[derive(Clone, Copy, Debug, PartialEq, Eq, Structural)]
pub struct TimerStructure {
    /// Whether the step pin is high.
    pub pin_is_high: bool,
    /// Whether the compare-match interrupt is enabled.
    pub interrupt_enabled: bool,
    /// The compare register, in counter ticks.
    pub compare: u16,
    /// Whether clear-on-compare mode with prescaler 64 is set.
    pub configured: bool,
}

/// The compare value for a half-period, when it fits the register.
pub open spec fn compare_value(duration: u32) -> int {
    duration as int / MICROS_PER_TICK as int
}

pub open spec fn duration_fits(duration: u32) -> bool {
    compare_value(duration) <= MAX_COMPARE
}

impl TimerStructure {
    /// A timer that is not configured, with its interrupt off and the pin low.
    pub fn new() -> (r: TimerStructure)
        ensures
            !r.pin_is_high,
            !r.interrupt_enabled,
            r.compare == 0,
            !r.configured,
    {
        TimerStructure { pin_is_high: false, interrupt_enabled: false, compare: 0, configured: false }
    }
}

/// Puts the counter into clear-on-compare mode with a prescaler of 64.
pub fn init(timer: &mut TimerStructure)
    ensures
        *final(timer) == (TimerStructure { configured: true, ..*old(timer) }),
{
    timer.configured = true;
}

/// Enables or disables the compare-match interrupt; disabling also drives
/// the step pin low, so that the motor driver is not left mid-pulse.
pub fn set_timer_status(timer: &mut TimerStructure, active: bool)
    ensures
        final(timer).interrupt_enabled == active,
        final(timer).pin_is_high == (active && old(timer).pin_is_high),
        final(timer).compare == old(timer).compare,
        final(timer).configured == old(timer).configured,
{
    timer.interrupt_enabled = active;
    if !active {
        timer.pin_is_high = false;
    }
}

/// Sets the half-period: the compare register takes `duration / 4`. A
/// duration whose compare value does not fit 16 bits is refused and the
/// timer left as it was.
pub fn set_duration(timer: &mut TimerStructure, duration: u32) -> (r: Result<(), TimerError>)
    ensures
        duration_fits(duration) <==> r is Ok,
        r is Ok ==> *final(timer) == (TimerStructure { compare: compare_value(duration) as u16, ..*old(timer) }),
        r is Err ==> r == Err::<(), TimerError>(TimerError::DurationTooLong) && *final(timer) == *old(timer),
{
    let time = duration / MICROS_PER_TICK;
    if time > MAX_COMPARE {
        Err(TimerError::DurationTooLong)
    } else {
        timer.compare = time as u16;
        Ok(())
    }
}

/// What a compare match does: it toggles the step pin while the interrupt
/// is enabled, and nothing otherwise.
pub open spec fn compare_match_spec(timer: TimerStructure) -> TimerStructure {
    if timer.interrupt_enabled {
        TimerStructure { pin_is_high: !timer.pin_is_high, ..timer }
    } else {
        timer
    }
}

/// The compare-match interrupt: toggles the step pin. It fires only while
/// the interrupt is enabled.
pub fn on_compare_match(timer: &mut TimerStructure)
    ensures
        *final(timer) == compare_match_spec(*old(timer)),
{
    if timer.interrupt_enabled {
        timer.pin_is_high = !timer.pin_is_high;
    }
}

/// A half-period fits the counter exactly when it is at most the longest
/// half-period.
pub proof fn lemma_duration_fits(duration: u32)
    ensures
        duration_fits(duration) <==> duration <= MAX_HALF_PERIOD,
{
}

} // verus!
