//! The process-wide shutdown latch: unset at startup, set once by the first
//! interrupt or termination request, and left alone by any later one.
use vstd::prelude::*;

verus! {

/// A request to stop the process.
#[derive(Clone, Copy, Debug, PartialEq, Eq, Structural)]
pub enum Signal {
    /// An interactive interrupt (Ctrl+C).
    Interrupt,
    /// A termination request.
    Terminate,
}

/// Records the signal that started the graceful shutdown.
#[derive(Clone, Copy, Debug)]
pub struct ShutdownLatch {
    /// The first signal received, if any.
    pub fired: Option<Signal>,
}

/// The latch's record after `signal` arrives when it held `fired`.
pub open spec fn record(fired: Option<Signal>, signal: Signal) -> Option<Signal> {
    if fired is None {
        Some(signal)
    } else {
        fired
    }
}

impl ShutdownLatch {
    /// A latch that no signal has set yet.
    pub fn new() -> (r: ShutdownLatch)
        ensures
            r.fired is None,
    {
        ShutdownLatch { fired: None }
    }

    /// Takes in `signal`. Returns whether it is the one that sets the latch:
    /// only the first signal does, and later ones change nothing.
    pub fn notify(&mut self, signal: Signal) -> (first: bool)
        ensures
            first == (old(self).fired is None),
            final(self).fired == record(old(self).fired, signal),
    {
        if self.fired.is_none() {
            self.fired = Some(signal);
            true
        } else {
            false
        }
    }

    /// Whether a shutdown was requested.
    pub fn is_set(&self) -> (r: bool)
        ensures
            r == (self.fired is Some),
    {
        self.fired.is_some()
    }
}

/// Setting the latch is idempotent: after any signal the latch is set, and a
/// second signal neither reports itself as the first nor changes the latch.
pub proof fn lemma_latch_set_once(fired: Option<Signal>, a: Signal, b: Signal)
    ensures
        record(fired, a) is Some,
        record(record(fired, a), b) == record(fired, a),
{
}

} // verus!
