//! The cancellation flag of one session.

use vstd::prelude::*;

verus! {

/// A flag that starts lowered and can only ever be raised.
///
/// One signal belongs to one session.  It has a single writer, and nothing
/// lowers it again: a later session gets a signal of its own.
#[derive(Debug)]
pub struct ShutdownSignal {
    raised: bool,
}

impl View for ShutdownSignal {
    type V = bool;

    closed spec fn view(&self) -> bool {
        self.raised
    }
}

impl ShutdownSignal {
    /// A lowered signal.
    pub fn new() -> (s: Self)
        ensures
            !s@,
    {
        ShutdownSignal { raised: false }
    }

    /// Whether the signal has been raised.
    pub fn is_set(&self) -> (b: bool)
        ensures
            b == self@,
    {
        self.raised
    }

    /// Raises the signal.  The result tells whether this call made the change:
    /// raising a raised signal does nothing and returns `false`.
    pub fn raise(&mut self) -> (changed: bool)
        ensures
            final(self)@,
            changed == !old(self)@,
    {
        let changed = !self.raised;
        self.raised = true;
        changed
    }
}

} // verus!
