use vstd::prelude::*;
use crate::coordinator;
use crate::handle::{opt_handle_id, ProcessHandle};
use crate::registry::{remaining_after_take, taken_handle, Registry};

verus! {

/// Where the startup sequence stands: which answer from the embedding
/// program the supervisor is waiting for next.
#[derive(Clone, Copy, Debug, PartialEq, Eq, Structural)]
pub enum SetupPhase {
    /// Waiting for the liveness prober's report.
    AwaitingProbe,
    /// Waiting for the outcome of spawning the primary command.
    AwaitingPrimary,
    /// Waiting for the outcome of spawning the fallback command.
    AwaitingFallback,
    /// Startup is decided; only shutdown remains.
    Settled,
}

/// What the supervisor asks the embedding program to do next.
#[derive(Clone, Copy, Debug, PartialEq, Eq, Structural)]
pub enum SetupAction {
    /// Spawn the primary command, detached and windowless, and report
    /// the resulting handle (or its absence).
    SpawnPrimary,
    /// Spawn the fallback command the same way and report the result.
    SpawnFallback,
    /// Startup is complete; nothing further to do.
    Finish,
}

/// Whether the launch strategy runs the primary command at all, given
/// the prober's report: a spawn is attempted exactly when no instance
/// already listens.
pub open spec fn primary_attempted(alive: bool) -> bool {
    !alive
}

/// Whether the fallback command is attempted, given the prober's report
/// and the outcome of the primary spawn: only when nothing listens and
/// the primary command failed to start.
pub open spec fn fallback_attempted(alive: bool, primary: Option<u64>) -> bool {
    !alive && primary is None
}

/// The registry content once startup settles, as a function of the
/// prober's report and the two spawn outcomes: nothing when an instance
/// already ran, otherwise whichever attempt succeeded first, or nothing
/// when both failed.
pub open spec fn settled_registry(
    alive: bool,
    primary: Option<u64>,
    fallback: Option<u64>,
) -> Option<u64> {
    if alive {
        None
    } else if primary is Some {
        primary
    } else {
        fallback
    }
}

/// The supervision core: the startup state machine together with the
/// registry that owns the spawned handle.
///
/// The embedding program feeds it the probe report and each spawn
/// outcome, performs the action it returns, and routes every lifecycle
/// trigger into `shutdown`.
pub struct Supervisor {
    phase: SetupPhase,
    registry: Registry,
}

impl Supervisor {
    /// The phase the startup sequence is in.
    pub closed spec fn current_phase(&self) -> SetupPhase {
        self.phase
    }

    /// The identifier of the process the registry currently owns, if
    /// any.
    pub closed spec fn managed(&self) -> Option<u64> {
        self.registry@
    }

    /// A supervisor at application startup: nothing managed, the
    /// prober's report pending.
    pub fn new() -> (s: Supervisor)
        ensures
            s.current_phase() == SetupPhase::AwaitingProbe,
            s.managed() is None,
    {
        Supervisor { phase: SetupPhase::AwaitingProbe, registry: Registry::new() }
    }

    /// The phase the startup sequence is in, for the embedding program
    /// to drive the exchange.
    pub fn phase(&self) -> (p: SetupPhase)
        ensures
            p == self.current_phase(),
    {
        self.phase
    }

    /// Whether a spawned companion process is currently owned.
    pub fn has_managed_child(&self) -> (b: bool)
        ensures
            b == (self.managed() is Some),
    {
        self.registry.has_handle()
    }

    /// Feeds the liveness prober's report: `alive` means something
    /// accepted a connection on the well-known endpoint, so that
    /// instance is authoritative and no spawn happens. Otherwise the
    /// primary command is to be tried.
    pub fn on_probe(&mut self, alive: bool) -> (a: SetupAction)
        requires
            old(self).current_phase() == SetupPhase::AwaitingProbe,
        ensures
            final(self).managed() == old(self).managed(),
            (a == SetupAction::SpawnPrimary) == primary_attempted(alive),
            alive ==> a == SetupAction::Finish && final(self).current_phase()
                == SetupPhase::Settled,
            !alive ==> final(self).current_phase() == SetupPhase::AwaitingPrimary,
    {
        if alive {
            self.phase = SetupPhase::Settled;
            SetupAction::Finish
        } else {
            self.phase = SetupPhase::AwaitingPrimary;
            SetupAction::SpawnPrimary
        }
    }

    /// Feeds the outcome of spawning the primary command. A handle
    /// means the launch succeeded: it is stored and startup settles. No
    /// handle means the primary executable was unavailable, and the
    /// fallback command is to be tried with identical arguments.
    pub fn on_primary_result(&mut self, spawned: Option<ProcessHandle>) -> (a: SetupAction)
        requires
            old(self).current_phase() == SetupPhase::AwaitingPrimary,
        ensures
            (a == SetupAction::SpawnFallback) == fallback_attempted(
                false,
                opt_handle_id(spawned),
            ),
            spawned is Some ==> a == SetupAction::Finish && final(self).current_phase()
                == SetupPhase::Settled && final(self).managed() == opt_handle_id(spawned),
            spawned is None ==> final(self).current_phase() == SetupPhase::AwaitingFallback
                && final(self).managed() == old(self).managed(),
    {
        match spawned {
            Some(h) => {
                self.registry.store(h);
                self.phase = SetupPhase::Settled;
                SetupAction::Finish
            },
            None => {
                self.phase = SetupPhase::AwaitingFallback;
                SetupAction::SpawnFallback
            },
        }
    }

    /// Feeds the outcome of spawning the fallback command. Either way
    /// startup settles: with a handle the registry owns it; without one
    /// both attempts failed, which is non-fatal, and the supervisor
    /// simply manages no process for this run.
    pub fn on_fallback_result(&mut self, spawned: Option<ProcessHandle>) -> (a: SetupAction)
        requires
            old(self).current_phase() == SetupPhase::AwaitingFallback,
        ensures
            a == SetupAction::Finish,
            final(self).current_phase() == SetupPhase::Settled,
            spawned is Some ==> final(self).managed() == opt_handle_id(spawned),
            spawned is None ==> final(self).managed() == old(self).managed(),
            old(self).managed() is None ==> final(self).managed() == settled_registry(
                false,
                None,
                opt_handle_id(spawned),
            ),
    {
        match spawned {
            Some(h) => {
                self.registry.store(h);
            },
            None => {},
        }
        self.phase = SetupPhase::Settled;
        SetupAction::Finish
    }

    /// Routes a lifecycle trigger (menu quit, window destroyed,
    /// application exit) to the shutdown coordinator. May be called in
    /// any phase, any number of times; the handle of the process to
    /// terminate comes back at most once.
    pub fn shutdown(&mut self) -> (victim: Option<ProcessHandle>)
        ensures
            opt_handle_id(victim) == taken_handle(old(self).managed()),
            final(self).managed() == remaining_after_take(old(self).managed()),
            final(self).current_phase() == old(self).current_phase(),
    {
        coordinator::shutdown(&mut self.registry)
    }
}

} // verus!
