//! The single-flight gate: admits at most one shutdown evaluation at a time.

use vstd::prelude::*;

verus! {

/// A gate that at most one close-handling cycle can hold at a time.
///
/// The host owns exactly one `Gate` for the lifetime of the coordinator and
/// threads it through every close-signal and resolution step by exclusive
/// reference, which is what makes the acquire step indivisible here.  A
/// rejected `acquire` does not queue: the corresponding close signal is
/// simply dropped.
pub struct Gate {
    in_flight: bool,
}

impl Gate {
    /// Whether an unreleased acquisition currently exists.
    pub closed spec fn in_progress(self) -> bool {
        self.in_flight
    }

    /// A fresh gate: no cycle is in flight.
    pub fn new() -> (g: Gate)
        ensures
            !g.in_progress(),
    {
        Gate { in_flight: false }
    }

    /// Tries to start a cycle.  Returns true only to the caller that moved
    /// the `Gate` from free to held; a caller that finds the `Gate` held gets
    /// false and the `Gate` is left exactly as it was.
    pub fn acquire(&mut self) -> (acquired: bool)
        ensures
            acquired == !old(self).in_progress(),
            final(self).in_progress(),
            !acquired ==> *final(self) == *old(self),
    {
        if self.in_flight {
            false
        } else {
            self.in_flight = true;
            true
        }
    }

    /// Ends a cycle.  Idempotent: safe to call even when no cycle is active.
    pub fn release(&mut self)
        ensures
            !final(self).in_progress(),
    {
        self.in_flight = false;
    }
}

} // verus!
