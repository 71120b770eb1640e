use vstd::prelude::*;

verus! {

/// A cancellation flag shared for the lifetime of one supervisor run.
///
/// The flag is monotonic: it starts `active`, may move to `cancelled`, and
/// never reverses.  Asking to cancel an already-cancelled signal is a
/// harmless no-op and never reports an error.
pub struct CancellationSignal {
    cancelled: bool,
}

impl CancellationSignal {
    /// True once shutdown has been requested through this signal.
    pub closed spec fn is_cancelled(self) -> bool {
        self.cancelled
    }

    /// A fresh signal, still active.
    pub fn new() -> (s: CancellationSignal)
        ensures
            !s.is_cancelled(),
    {
        CancellationSignal { cancelled: false }
    }

    /// Request shutdown.  Idempotent: cancelling a signal that is already
    /// cancelled changes nothing, and no attempt ever reports an error.
    pub fn cancel(&mut self)
        ensures
            final(self).is_cancelled(),
            old(self).is_cancelled() ==> *final(self) == *old(self),
    {
        self.cancelled = true;
    }

    /// Observe the flag, as a worker polling for shutdown would.
    pub fn observe(&self) -> (r: bool)
        ensures
            r == self.is_cancelled(),
    {
        self.cancelled
    }
}

} // verus!
