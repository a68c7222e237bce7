use vstd::prelude::*;

verus! {

/// A one-shot, monotonic cancellation signal: it transitions once from "not
/// cancelled" to "cancelled" and never resets — `cancel` is the only mutator
/// and it only sets.
#[derive(Clone, Copy, PartialEq, Eq, Structural, Debug)]
pub struct CancelSignal {
    cancelled: bool,
}

impl CancelSignal {
    /// Whether the signal has been raised.
    pub closed spec fn signalled(self) -> bool {
        self.cancelled
    }

    /// A fresh, unraised signal.
    pub fn new() -> (s: CancelSignal)
        ensures
            !s.signalled(),
    {
        CancelSignal { cancelled: false }
    }

    /// Raise the signal. Raising an already raised signal changes nothing:
    /// every call beyond the first is a no-op.
    pub fn cancel(&mut self)
        ensures
            final(self).signalled(),
            old(self).signalled() ==> *final(self) == *old(self),
    {
        self.cancelled = true;
    }

    /// Observe the signal, as a cancellable select loop does each iteration.
    pub fn is_cancelled(&self) -> (r: bool)
        ensures
            r == self.signalled(),
    {
        self.cancelled
    }
}

/// A running server supervised by a cancellation signal it owns. The accept
/// loop races "serve the next call" against "signal raised" and yields to
/// whichever resolves first; the host's only own state is the signal, so
/// shutting down is raising it. If the loop ends for any other reason, that
/// is silent to the owner — nothing here records it.
#[derive(Clone, Copy, PartialEq, Eq, Structural, Debug)]
pub struct ServerHost {
    cancel: CancelSignal,
}

impl ServerHost {
    /// The host admits new accept iterations.
    pub closed spec fn accepting(self) -> bool {
        !self.cancel.signalled()
    }

    /// Shutdown has been requested.
    pub closed spec fn is_shut_down(self) -> bool {
        self.cancel.signalled()
    }

    /// Begin hosting: the freshly created signal is unraised, so the accept
    /// loop runs.
    pub fn start() -> (h: ServerHost)
        ensures
            h.accepting(),
    {
        ServerHost { cancel: CancelSignal::new() }
    }

    /// Request termination: raise the signal exactly once and return without
    /// waiting for in-flight calls to drain. Idempotent beyond the first
    /// call.
    pub fn shutdown(&mut self)
        ensures
            final(self).is_shut_down(),
            old(self).is_shut_down() ==> *final(self) == *old(self),
    {
        self.cancel.cancel();
    }

    /// One decision of the accept loop's race: whether a new call may still
    /// be accepted. True exactly until the signal is observed; the loop exits
    /// on the first false.
    pub fn may_accept(&self) -> (r: bool)
        ensures
            r == self.accepting(),
    {
        !self.cancel.is_cancelled()
    }
}

/// Shutdown law (the safety half of shutdown liveness): once `shutdown` has
/// returned the host is cancelled and no accept iteration admits a new call;
/// and since the signal is monotonic — shutdown is the host's only transition
/// and it only raises — no later state accepts either. Calls already accepted
/// are untouched: nothing here ends them.
pub proof fn lemma_no_accept_after_shutdown(h: ServerHost)
    ensures
        h.is_shut_down() ==> !h.accepting(),
{
}

} // verus!
