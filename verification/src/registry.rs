use vstd::prelude::*;
use crate::handle::{opt_handle_id, ProcessHandle};

verus! {

/// What a take against a registry holding `slot` yields: the whole
/// content, handed to the single caller that takes it.
pub open spec fn taken_handle(slot: Option<u64>) -> Option<u64> {
    slot
}

/// What remains in a registry after a take: nothing.
pub open spec fn remaining_after_take(slot: Option<u64>) -> Option<u64> {
    None
}

/// The single shared slot that owns the handle of the companion
/// process this supervisor instance spawned, or nothing if it spawned
/// none.
///
/// The slot is viewed as the identifier it holds. Ownership moves in
/// through `store` and out through `take`; once `take` has returned a
/// handle, no later caller can observe that same handle, which is the
/// ordering guarantee the shutdown paths rely on.
pub struct Registry {
    slot: Option<ProcessHandle>,
}

impl View for Registry {
    type V = Option<u64>;

    closed spec fn view(&self) -> Option<u64> {
        opt_handle_id(self.slot)
    }
}

impl Registry {
    /// A registry that manages no process, the state at application
    /// startup.
    pub fn new() -> (r: Registry)
        ensures
            r@ is None,
    {
        Registry { slot: None }
    }

    /// Installs a handle, overwriting any previous content.
    pub fn store(&mut self, h: ProcessHandle)
        ensures
            final(self)@ == Some(h@),
    {
        self.slot = Some(h);
    }

    /// Removes and returns the current content, leaving the slot
    /// empty. Of any number of successive takes, only the first can
    /// return the stored handle.
    pub fn take(&mut self) -> (r: Option<ProcessHandle>)
        ensures
            opt_handle_id(r) == taken_handle(old(self)@),
            final(self)@ == remaining_after_take(old(self)@),
    {
        self.slot.take()
    }

    /// Whether the registry currently owns a handle.
    pub fn has_handle(&self) -> (b: bool)
        ensures
            b == (self@ is Some),
    {
        self.slot.is_some()
    }
}

} // verus!
