use vstd::prelude::*;

use crate::dispatch::spec_drain_cap;

verus! {

/// The coalescing wake signal, as the dispatcher observes it: a single
/// pending-wake flag, never a counter. Producers set it to ask for an early
/// flush; the dispatcher consumes it at the start of an idle wait.
pub struct WakeSignal {
    pub pending: bool,
}

/// The state of a signal after a producer requested a wake: the flag is set,
/// whatever it was before.
pub open spec fn spec_requested(s: WakeSignal) -> WakeSignal {
    WakeSignal { pending: true }
}

impl WakeSignal {
    /// A fresh signal with no wake outstanding.
    pub fn new() -> (s: Self)
        ensures
            !s.pending,
    {
        WakeSignal { pending: false }
    }

    /// Asks the dispatcher to cut its next idle wait short. Setting the flag
    /// when it is already set is a no-op: requests coalesce, they never pile up.
    pub fn request_wake(&mut self)
        ensures
            *final(self) == spec_requested(*old(self)),
    {
        if !self.pending {
            self.pending = true;
        }
    }

    /// The dispatcher's side of the idle wait: consumes a pending wake, if
    /// any, and reports whether one was there. A consumed wake means the wait
    /// ends at once instead of running out the idle timer.
    pub fn consume(&mut self) -> (woke: bool)
        ensures
            woke == old(self).pending,
            !final(self).pending,
    {
        let woke = self.pending;
        self.pending = false;
        woke
    }
}

/// However many times producers request a wake before the dispatcher looks,
/// the signal is in the same state as after a single request.
pub proof fn lemma_wake_coalesces(s: WakeSignal)
    ensures
        spec_requested(spec_requested(s)) == spec_requested(s),
{
}

/// A wake requested while the dispatcher is idle cuts the next wait short:
/// the flag is pending, so the wait returns at once instead of running out
/// the idle timer, and with records already queued the drain that follows
/// takes some of them — the cycle starts before the timer would have elapsed.
pub proof fn lemma_wake_preempts_idle(s: WakeSignal, queue_len: nat)
    requires
        queue_len > 0,
    ensures
        spec_requested(s).pending,
        spec_drain_cap(queue_len) > 0,
{
}

} // verus!
