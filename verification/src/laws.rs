use vstd::prelude::*;
use crate::registry::{remaining_after_take, taken_handle};
use crate::supervisor::{fallback_attempted, primary_attempted, settled_registry};

verus! {

/// How many kill operations a run of `n` successive shutdown requests
/// performs against a registry that currently holds `slot`: each
/// request takes what the registry then holds, kills it if it is a
/// handle, and leaves the registry as a take leaves it.
pub open spec fn kills_over(slot: Option<u64>, n: nat) -> nat
    decreases n,
{
    if n == 0 {
        0
    } else {
        (if taken_handle(slot) is Some {
            1nat
        } else {
            0nat
        }) + kills_over(remaining_after_take(slot), (n - 1) as nat)
    }
}

/// Any sequence of shutdown requests on an empty registry performs zero
/// kill operations.
pub proof fn shutdown_on_empty_never_kills(n: nat)
    ensures
        kills_over(None, n) == 0,
    decreases n,
{
    if n > 0 {
        shutdown_on_empty_never_kills((n - 1) as nat);
    }
}

/// If a handle is stored and shutdown is requested any number of times,
/// exactly one request observes the handle and issues the kill; all the
/// others find the registry empty.
pub proof fn stored_handle_is_killed_exactly_once(id: u64, n: nat)
    requires
        n >= 1,
    ensures
        kills_over(Some(id), n) == 1,
{
    shutdown_on_empty_never_kills((n - 1) as nat);
}

/// If the liveness prober reports that an instance already listens,
/// neither launch command is attempted and the registry settles empty,
/// whatever the spawn outcomes would have been.
pub proof fn alive_probe_prevents_launch(primary: Option<u64>, fallback: Option<u64>)
    ensures
        !primary_attempted(true),
        !fallback_attempted(true, primary),
        settled_registry(true, primary, fallback) is None,
{
}

/// If nothing listens and the primary command fails to start but the
/// fallback succeeds, the fallback is indeed attempted and the registry
/// settles holding the fallback's handle.
pub proof fn fallback_success_registers_handle(id: u64)
    ensures
        fallback_attempted(false, None),
        settled_registry(false, None, Some(id)) == Some(id),
{
}

/// If nothing listens and both launch commands fail, both are attempted
/// and the registry settles empty: the supervisor degrades to managing
/// no process rather than failing.
pub proof fn double_failure_leaves_registry_empty()
    ensures
        primary_attempted(false),
        fallback_attempted(false, None),
        settled_registry(false, None, None) is None,
{
}

} // verus!
