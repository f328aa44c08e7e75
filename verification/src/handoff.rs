//! The one-shot handoff that tells the control surface to begin its own
//! graceful shutdown once the child has been stopped.

use vstd::prelude::*;

verus! {

/// A signal that can be taken exactly once. A second taker learns that the
/// signal is already gone — a prior shutdown attempt must have taken it —
/// rather than being silently ignored.
pub struct ShutdownHandoff {
    taken: bool,
}

impl ShutdownHandoff {
    /// Whether the signal has already been taken.
    pub closed spec fn is_taken(&self) -> bool {
        self.taken
    }

    /// A fresh handoff whose signal nobody has taken yet.
    pub fn new() -> (h: ShutdownHandoff)
        ensures
            !h.is_taken(),
    {
        ShutdownHandoff { taken: false }
    }

    /// Takes the signal: true exactly on the first call, false on every
    /// later one.
    pub fn acquire(&mut self) -> (r: bool)
        ensures
            final(self).is_taken(),
            r == !old(self).is_taken(),
    {
        let r = !self.taken;
        self.taken = true;
        r
    }
}

} // verus!
