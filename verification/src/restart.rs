use vstd::prelude::*;

verus! {

/// The signal after it has been raised: a restart is pending, whether or
/// not one was pending before.
pub open spec fn raised(pending: bool) -> bool {
    true
}

/// What taking the signal gives, and the signal afterwards: a pending
/// restart is handed out once and is then gone.
pub open spec fn taken(pending: bool) -> (bool, bool) {
    (pending, false)
}

/// The one slot through which the reconciliation tells the serving loop to
/// restart. It does not count: raised again before it is taken, it still
/// holds one restart.
#[derive(Debug)]
pub struct RestartSignal {
    pending: bool,
}

impl RestartSignal {
    /// Whether a restart is pending.
    pub closed spec fn pending(&self) -> bool {
        self.pending
    }

    /// A signal with nothing pending.
    pub fn new() -> (signal: Self)
        ensures
            !signal.pending(),
    {
        RestartSignal { pending: false }
    }

    /// Marks a restart as pending.
    pub fn signal(&mut self)
        ensures
            final(self).pending() == raised(old(self).pending()),
    {
        self.pending = true;
    }

    /// Takes the pending restart, if there is one.
    pub fn take(&mut self) -> (was_pending: bool)
        ensures
            (was_pending, final(self).pending()) == taken(old(self).pending()),
    {
        let was_pending = self.pending;
        self.pending = false;
        was_pending
    }

    /// Whether a restart is pending.
    pub fn is_pending(&self) -> (pending: bool)
        ensures
            pending == self.pending(),
    {
        self.pending
    }
}

/// However often the signal is raised before it is taken, it is handed out
/// once: the first taking gives a restart, the next gives none.
pub proof fn law_signals_coalesce(pending: bool)
    ensures
        raised(raised(pending)) == raised(pending),
        taken(raised(raised(pending))) == (true, false),
        taken(taken(raised(raised(pending))).1) == (false, false),
{
}

} // verus!
