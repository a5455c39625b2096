//! Small ownership helpers.
use vstd::prelude::*;

verus! {

/// Holds an action to run once when the guarded scope ends.
pub struct ScopeGuard<F> {
    on_drop: Option<F>,
}

impl<F> ScopeGuard<F> {
    /// The pending action, if it has not been taken.
    pub closed spec fn pending(&self) -> Option<F> {
        self.on_drop
    }

    /// A guard that runs `on_drop` when its scope ends.
    pub fn new(on_drop: F) -> (g: Self)
        ensures
            g.pending() == Some(on_drop),
    {
        ScopeGuard { on_drop: Some(on_drop) }
    }

    /// Takes the action to run; it is handed out at most once.
    pub fn take(&mut self) -> (f: Option<F>)
        ensures
            f == old(self).pending(),
            final(self).pending() is None,
    {
        self.on_drop.take()
    }
}

} // verus!
