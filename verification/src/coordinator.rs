use vstd::prelude::*;
use crate::handle::{opt_handle_id, ProcessHandle};
use crate::registry::{remaining_after_take, taken_handle, Registry};

verus! {

/// The shutdown coordinator: takes ownership of the registered handle,
/// if any, and leaves the registry empty.
///
/// The returned handle, when there is one, is the process the caller
/// must now terminate; termination is best-effort and happens outside
/// the registry, so no lock is held across the kill. Calling this on an
/// empty registry is a no-op that returns nothing, which makes the
/// operation idempotent and safe to invoke from every lifecycle
/// trigger: of any number of shutdown requests, at most one receives a
/// handle to kill.
pub fn shutdown(registry: &mut Registry) -> (victim: Option<ProcessHandle>)
    ensures
        opt_handle_id(victim) == taken_handle(old(registry)@),
        final(registry)@ == remaining_after_take(old(registry)@),
{
    registry.take()
}

} // verus!
