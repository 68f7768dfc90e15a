//! The cancellation signal that the workers of one connection share: a flag
//! that is raised once and stays raised.

use vstd::prelude::*;

verus! {

/// One connection's cancellation signal.
#[derive(Clone, Copy, Debug, PartialEq, Eq, Structural)]
pub struct Signal {
    /// Whether cancellation has been asked for.
    pub cancelled: bool,
    /// How often the flag has changed.
    pub transitions: usize,
}

impl Signal {
    /// The flag has changed once if it is raised, and never if it is not.
    pub open spec fn wf(self) -> bool {
        self.transitions == (if self.cancelled {
            1usize
        } else {
            0usize
        })
    }

    /// A signal that nobody has triggered.
    pub open spec fn fresh() -> Signal {
        Signal { cancelled: false, transitions: 0 }
    }

    /// The signal after one trigger: raised, with a change counted only if
    /// it was not raised before.
    pub open spec fn triggered(self) -> Signal {
        if self.cancelled {
            self
        } else {
            Signal { cancelled: true, transitions: (self.transitions + 1) as usize }
        }
    }

    /// The signal after `n` triggers, in whatever order their callers came.
    pub open spec fn triggered_times(self, n: nat) -> Signal
        decreases n,
    {
        if n == 0 {
            self
        } else {
            self.triggered().triggered_times((n - 1) as nat)
        }
    }

    /// A signal that nobody has triggered.
    pub fn new() -> (signal: Signal)
        ensures
            signal == Signal::fresh(),
            signal.wf(),
    {
        Signal { cancelled: false, transitions: 0 }
    }

    /// Raises the flag. Returns whether this call was the one that raised it.
    pub fn trigger(&mut self) -> (first: bool)
        requires
            old(self).wf(),
        ensures
            *final(self) == old(self).triggered(),
            final(self).wf(),
            final(self).cancelled,
            first == !old(self).cancelled,
    {
        if self.cancelled {
            false
        } else {
            self.cancelled = true;
            self.transitions = 1;
            true
        }
    }

    /// Whether cancellation has been asked for.
    pub fn is_cancelled(&self) -> (cancelled: bool)
        ensures
            cancelled == self.cancelled,
    {
        self.cancelled
    }
}

/// A trigger on a raised signal changes nothing.
pub proof fn law_trigger_is_idempotent(signal: Signal)
    ensures
        signal.triggered().triggered() == signal.triggered(),
        signal.triggered().cancelled,
{
}

/// However often a fresh signal is triggered, if it is triggered at all it
/// is raised and has changed exactly once; and once raised, it stays so
/// under any number of further triggers.
pub proof fn law_cancellation_happens_once(signal: Signal, n: nat)
    requires
        signal.wf(),
        n >= 1,
    ensures
        signal.triggered_times(n).cancelled,
        signal.triggered_times(n).transitions == 1,
        signal.triggered_times(n) == signal.triggered(),
    decreases n,
{
    if n > 1 {
        law_cancellation_happens_once(signal.triggered(), (n - 1) as nat);
    } else {
        assert(signal.triggered().triggered_times(0) == signal.triggered());
    }
}

} // verus!
