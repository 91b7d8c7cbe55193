//! The watchdog supervisor: it resets the device once it has gone unfed for
//! its whole timeout.
use vstd::prelude::*;

verus! {

/// The supervisor's clock: how long it has gone unfed, capped at the
/// timeout, and whether it has reset the device.
#[derive(Clone, Copy, Debug, PartialEq, Eq, Structural)]
pub struct Watchdog {
    pub timeout_ms: u32,
    pub unfed_ms: u32,
    pub expired: bool,
}

/// The time unfed after `ms` more milliseconds, capped at the timeout.
pub open spec fn unfed_after(w: Watchdog, ms: u32) -> u32 {
    if w.unfed_ms as int + ms as int >= w.timeout_ms as int {
        w.timeout_ms
    } else {
        (w.unfed_ms + ms) as u32
    }
}

pub open spec fn elapse_spec(w: Watchdog, ms: u32) -> Watchdog {
    let unfed = unfed_after(w, ms);
    Watchdog { timeout_ms: w.timeout_ms, unfed_ms: unfed, expired: w.expired || unfed >= w.timeout_ms }
}

pub open spec fn feed_spec(w: Watchdog) -> Watchdog {
    if w.expired {
        w
    } else {
        Watchdog { unfed_ms: 0, ..w }
    }
}

/// A main loop whose iterations take the given times, each followed by a
/// feed when `feeding` holds.
pub open spec fn run(w: Watchdog, iterations: Seq<u32>, feeding: bool) -> Watchdog
    decreases iterations.len(),
{
    if iterations.len() == 0 {
        w
    } else {
        let before = elapse_spec(run(w, iterations.drop_last(), feeding), iterations.last());
        if feeding {
            feed_spec(before)
        } else {
            before
        }
    }
}

pub open spec fn total_ms(iterations: Seq<u32>) -> int
    decreases iterations.len(),
{
    if iterations.len() == 0 {
        0
    } else {
        total_ms(iterations.drop_last()) + iterations.last()
    }
}

impl Watchdog {
    pub open spec fn wf(&self) -> bool {
        self.unfed_ms <= self.timeout_ms
    }

    /// Arms the watchdog with the given timeout.
    pub fn arm(timeout_ms: u32) -> (r: Watchdog)
        ensures
            r == (Watchdog { timeout_ms, unfed_ms: 0, expired: false }),
    {
        Watchdog { timeout_ms, unfed_ms: 0, expired: false }
    }

    /// Restarts the timeout, unless the device has already been reset.
    pub fn feed(&mut self)
        ensures
            *final(self) == feed_spec(*old(self)),
    {
        if !self.expired {
            self.unfed_ms = 0;
        }
    }

    /// Lets `ms` milliseconds pass.
    pub fn elapse(&mut self, ms: u32)
        requires
            old(self).wf(),
        ensures
            final(self).wf(),
            *final(self) == elapse_spec(*old(self), ms),
    {
        let unfed: u32 = if ms >= self.timeout_ms - self.unfed_ms {
            self.timeout_ms
        } else {
            self.unfed_ms + ms
        };
        self.unfed_ms = unfed;
        self.expired = self.expired || unfed >= self.timeout_ms;
    }

    /// Whether the watchdog has reset the device.
    pub fn has_reset(&self) -> (r: bool)
        ensures
            r == self.expired,
    {
        self.expired
    }
}

proof fn lemma_fed_run_stays_fresh(w: Watchdog, iterations: Seq<u32>)
    requires
        !w.expired,
        w.unfed_ms == 0,
        forall|i: int| 0 <= i < iterations.len() ==> #[trigger] iterations[i] < w.timeout_ms,
    ensures
        !run(w, iterations, true).expired,
        run(w, iterations, true).unfed_ms == 0,
        run(w, iterations, true).timeout_ms == w.timeout_ms,
    decreases iterations.len(),
{
    if iterations.len() > 0 {
        let rest = iterations.drop_last();
        assert forall|i: int| 0 <= i < rest.len() implies #[trigger] rest[i] < w.timeout_ms by {
            assert(rest[i] == iterations[i]);
        }
        lemma_fed_run_stays_fresh(w, rest);
        assert(iterations.last() == iterations[iterations.len() - 1]);
    }
}

/// A main loop that feeds the watchdog after every iteration, each shorter
/// than the timeout, is never reset, however long it runs.
pub proof fn lemma_fed_loop_never_resets(timeout_ms: u32, iterations: Seq<u32>)
    requires
        forall|i: int| 0 <= i < iterations.len() ==> #[trigger] iterations[i] < timeout_ms,
    ensures
        !run(Watchdog { timeout_ms, unfed_ms: 0, expired: false }, iterations, true).expired,
{
    lemma_fed_run_stays_fresh(Watchdog { timeout_ms, unfed_ms: 0, expired: false }, iterations);
}

proof fn lemma_starved_run(w: Watchdog, iterations: Seq<u32>)
    requires
        w.wf(),
    ensures
        run(w, iterations, false).timeout_ms == w.timeout_ms,
        iterations.len() > 0 ==> run(w, iterations, false).expired == (w.expired || w.unfed_ms
            + total_ms(iterations) >= w.timeout_ms),
        run(w, iterations, false).unfed_ms == (if w.unfed_ms + total_ms(iterations) >= w.timeout_ms {
            w.timeout_ms as int
        } else {
            w.unfed_ms + total_ms(iterations)
        }),
    decreases iterations.len(),
{
    if iterations.len() > 0 {
        lemma_starved_run(w, iterations.drop_last());
    }
}

/// A main loop that stops feeding the watchdog is reset once its iterations
/// have taken longer than the timeout.
pub proof fn lemma_starved_loop_resets(timeout_ms: u32, iterations: Seq<u32>)
    requires
        total_ms(iterations) > timeout_ms,
    ensures
        run(Watchdog { timeout_ms, unfed_ms: 0, expired: false }, iterations, false).expired,
{
    lemma_starved_run(Watchdog { timeout_ms, unfed_ms: 0, expired: false }, iterations);
}

} // verus!
