use vstd::prelude::*;

verus! {

/// How long the watchdog waits for the first bytes of input.
pub const WATCHDOG_DEADLINE_MS: u64 = 5000;

/// The stall watchdog's view of a run: the deadline it was armed with and
/// whether the first read has returned. The timer and the process abort
/// themselves live at the boundary; this type carries the one decision the
/// watchdog makes when its timer fires.
pub struct Watchdog {
    pub deadline_ms: u64,
    pub input_seen: bool,
}

impl Watchdog {
    /// Arm the watchdog before the first read starts: no input yet.
    pub fn arm(deadline_ms: u64) -> (r: Self)
        ensures
            r.deadline_ms == deadline_ms,
            !r.input_seen,
    {
        Watchdog { deadline_ms, input_seen: false }
    }

    /// Record that the first read returned, however many bytes it brought.
    pub fn record_input(&mut self)
        ensures
            final(self).input_seen,
            final(self).deadline_ms == old(self).deadline_ms,
    {
        self.input_seen = true;
    }

    /// The abort decision: the process is torn down exactly when the
    /// deadline has passed and the first read has still not returned.
    pub fn should_abort(&self, elapsed_ms: u64) -> (r: bool)
        ensures
            r == (elapsed_ms >= self.deadline_ms && !self.input_seen),
    {
        elapsed_ms >= self.deadline_ms && !self.input_seen
    }
}

/// Once the first read has returned, the watchdog never aborts, however much
/// time the rest of the transcode takes.
pub proof fn lemma_no_abort_after_input(w: Watchdog, elapsed_ms: u64)
    requires
        w.input_seen,
    ensures
        !(elapsed_ms >= w.deadline_ms && !w.input_seen),
{
}

} // verus!
