use vstd::prelude::*;

verus! {

/// A binary, edge-triggered event flag: producers set it, the single
/// consumer takes it, which clears it.
pub struct SignalReactor {
    signaled: bool,
}

impl View for SignalReactor {
    type V = bool;

    closed spec fn view(&self) -> bool {
        self.signaled
    }
}

impl SignalReactor {
    /// A flag that is not set.
    pub fn new() -> (r: SignalReactor)
        ensures
            !r@,
    {
        SignalReactor { signaled: false }
    }

    /// Sets the flag. Several notifications before one wait coalesce.
    pub fn notify(&mut self)
        ensures
            final(self)@,
    {
        self.signaled = true;
    }

    /// One attempt at waiting: reports whether the flag was set, and leaves
    /// it cleared either way.
    pub fn try_wait(&mut self) -> (r: bool)
        ensures
            r == old(self)@,
            !final(self)@,
    {
        let r = self.signaled;
        self.signaled = false;
        r
    }
}

} // verus!
