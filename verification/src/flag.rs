//! The shutdown signal flag: a single-writer boolean, set at most once and
//! never reset, read by the supervisor once per tick. The interrupt handler
//! that actually writes the process-wide flag mirrors this model; the law
//! proved here is that raising the flag is idempotent.

use vstd::prelude::*;

verus! {

/// The supervisor-visible state of the shutdown request: `requested` turns
/// true when the interrupt arrives and never turns back.
pub struct ShutdownFlag {
    pub requested: bool,
}

/// The state after the interrupt handler runs: the flag reads true,
/// whatever it read before.
pub open spec fn spec_raise(f: ShutdownFlag) -> ShutdownFlag {
    ShutdownFlag { requested: true }
}

impl ShutdownFlag {
    /// A fresh flag: no shutdown has been requested yet.
    pub fn new() -> (f: Self)
        ensures
            !f.requested,
    {
        ShutdownFlag { requested: false }
    }

    /// Record the shutdown request.
    pub fn raise(&mut self)
        ensures
            *final(self) == spec_raise(*old(self)),
    {
        self.requested = true;
    }

    /// Read the flag, as the supervisor does once per tick.
    pub fn is_raised(&self) -> (b: bool)
        ensures
            b == self.requested,
    {
        self.requested
    }
}

/// Receiving the shutdown signal twice has exactly the effect of receiving
/// it once: the flag transition is idempotent.
pub proof fn lemma_raise_idempotent(f: ShutdownFlag)
    ensures
        spec_raise(spec_raise(f)) == spec_raise(f),
{
}

} // verus!
