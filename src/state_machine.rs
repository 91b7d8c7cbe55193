//! The tracker's mode and velocity.
use vstd::prelude::*;

verus! {

/// What the motor is doing.
#[derive(Clone, Copy, Debug, PartialEq, Eq, Structural)]
pub enum State {
    /// Driven at the stored half-period, in the positive direction.
    Track,
    /// Driven at the fast half-period; `true` is the positive direction.
    FastForward(bool),
    /// Stopped.
    Hold,
}

/// The tracking state machine: the stored velocity, as a half-period in
/// microseconds, and the current mode.
pub struct EQTracker {
    waiting_time: u32,
    state: State,
}

impl EQTracker {
    /// The stored half-period.
    pub closed spec fn velocity(&self) -> u32 {
        self.waiting_time
    }

    /// The current mode.
    pub closed spec fn mode(&self) -> State {
        self.state
    }

    /// A tracker in `Track` mode at the given half-period.
    pub fn new(waiting_time: u32) -> (r: EQTracker)
        ensures
            r.velocity() == waiting_time,
            r.mode() == State::Track,
    {
        EQTracker { waiting_time, state: State::Track }
    }

    pub fn set_state(&mut self, state: State)
        ensures
            final(self).mode() == state,
            final(self).velocity() == old(self).velocity(),
    {
        self.state = state;
    }

    pub fn get_state(&self) -> (r: State)
        ensures
            r == self.mode(),
    {
        self.state
    }

    pub fn get_waiting_time(&self) -> (r: u32)
        ensures
            r == self.velocity(),
    {
        self.waiting_time
    }

    pub fn set_waiting_time(&mut self, duration: u32)
        ensures
            final(self).velocity() == duration,
            final(self).mode() == old(self).mode(),
    {
        self.waiting_time = duration;
    }
}

} // verus!
