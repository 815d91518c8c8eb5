//! The shutdown coordinator's logical signal. Firing is terminal and
//! idempotent: once fired the token never reads unfired again, and firing a
//! fired token changes nothing. The event loop observes the signal as one of
//! its wait sources and hands the engine a shutdown event.

use vstd::prelude::*;

verus! {

/// One logical fire-once signal. Every subscriber of a broadcast built on
/// this state observes the same value.
#[derive(Debug, Clone, Copy, PartialEq, Eq, Structural)]
pub struct ShutdownToken {
    pub fired: bool,
}

impl ShutdownToken {
    /// A fresh, unfired token.
    pub fn new() -> (r: ShutdownToken)
        ensures
            !r.fired,
    {
        ShutdownToken { fired: false }
    }

    /// Fires the signal. Idempotent: the token reads fired afterwards
    /// whether or not it was already fired, so firing twice has the same
    /// effect as firing once.
    pub fn fire(&mut self)
        ensures
            final(self).fired,
    {
        self.fired = true;
    }

    /// Whether the signal has fired. Once true, it stays true: no method
    /// ever clears the flag.
    pub fn is_fired(&self) -> (r: bool)
        ensures
            r == self.fired,
    {
        self.fired
    }
}

} // verus!
