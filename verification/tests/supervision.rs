use supervisor::config::{Endpoint, LaunchConfig};
use supervisor::coordinator::shutdown;
use supervisor::handle::ProcessHandle;
use supervisor::registry::Registry;
use supervisor::supervisor::{SetupAction, SetupPhase, Supervisor};

#[test]
fn empty_registry_shutdown_is_noop() {
    let mut registry = Registry::new();
    assert!(!registry.has_handle());
    for _ in 0..5 {
        assert!(shutdown(&mut registry).is_none());
        assert!(!registry.has_handle());
    }
}

#[test]
fn stored_handle_is_taken_exactly_once() {
    let mut registry = Registry::new();
    registry.store(ProcessHandle::from_raw(7));
    let mut kills: u32 = 0;
    for _ in 0..4 {
        if let Some(victim) = shutdown(&mut registry) {
            assert_eq!(victim.raw(), 7);
            kills += 1;
        }
    }
    assert_eq!(kills, 1);
    assert!(!registry.has_handle());
}

#[test]
fn store_overwrites_previous_handle() {
    let mut registry = Registry::new();
    registry.store(ProcessHandle::from_raw(1));
    registry.store(ProcessHandle::from_raw(2));
    let taken = registry.take().expect("a handle was stored");
    assert_eq!(taken.raw(), 2);
    assert!(registry.take().is_none());
}

#[test]
fn alive_probe_skips_launch_and_run_stays_empty() {
    // Something listens on the endpoint: launch is never requested and
    // the registry stays empty for the whole run, shutdown included.
    let mut sup = Supervisor::new();
    assert_eq!(sup.phase(), SetupPhase::AwaitingProbe);
    let action = sup.on_probe(true);
    assert_eq!(action, SetupAction::Finish);
    assert_eq!(sup.phase(), SetupPhase::Settled);
    assert!(!sup.has_managed_child());
    assert!(sup.shutdown().is_none());
    assert!(sup.shutdown().is_none());
    assert!(!sup.has_managed_child());
}

#[test]
fn dead_probe_requests_primary_spawn() {
    let mut sup = Supervisor::new();
    let action = sup.on_probe(false);
    assert_eq!(action, SetupAction::SpawnPrimary);
    assert_eq!(sup.phase(), SetupPhase::AwaitingPrimary);
    assert!(!sup.has_managed_child());
}

#[test]
fn fallback_rescues_failed_primary() {
    // Primary executable missing, fallback present: the registry ends
    // up holding the fallback's handle.
    let mut sup = Supervisor::new();
    assert_eq!(sup.on_probe(false), SetupAction::SpawnPrimary);
    assert_eq!(sup.on_primary_result(None), SetupAction::SpawnFallback);
    assert_eq!(sup.phase(), SetupPhase::AwaitingFallback);
    let action = sup.on_fallback_result(Some(ProcessHandle::from_raw(42)));
    assert_eq!(action, SetupAction::Finish);
    assert!(sup.has_managed_child());
    let victim = sup.shutdown().expect("the fallback handle was registered");
    assert_eq!(victim.raw(), 42);
    assert!(!sup.has_managed_child());
}

#[test]
fn double_launch_failure_is_nonfatal() {
    // Both commands fail: the run continues with nothing managed and
    // later shutdowns are no-ops.
    let mut sup = Supervisor::new();
    assert_eq!(sup.on_probe(false), SetupAction::SpawnPrimary);
    assert_eq!(sup.on_primary_result(None), SetupAction::SpawnFallback);
    let action = sup.on_fallback_result(None);
    assert_eq!(action, SetupAction::Finish);
    assert_eq!(sup.phase(), SetupPhase::Settled);
    assert!(!sup.has_managed_child());
    assert!(sup.shutdown().is_none());
    assert!(sup.shutdown().is_none());
}

#[test]
fn primary_success_is_registered_and_terminated() {
    // Nothing listens on 127.0.0.1:8765; the primary interpreter is
    // present: its handle is stored and a single shutdown delivers it
    // for termination.
    let endpoint = Endpoint::new(String::from("127.0.0.1"), 8765);
    assert_eq!(endpoint.host, "127.0.0.1");
    assert_eq!(endpoint.port, 8765);
    let config = LaunchConfig::new(
        String::from("pythonw"),
        String::from("python"),
        vec![String::from("main.py")],
    );
    assert_eq!(config.primary, "pythonw");
    assert_eq!(config.fallback, "python");
    assert_eq!(config.args, vec![String::from("main.py")]);

    let mut sup = Supervisor::new();
    assert_eq!(sup.on_probe(false), SetupAction::SpawnPrimary);
    let handle = ProcessHandle::from_raw(9001);
    assert_eq!(sup.on_primary_result(Some(handle)), SetupAction::Finish);
    assert_eq!(sup.phase(), SetupPhase::Settled);
    assert!(sup.has_managed_child());
    let victim = sup.shutdown().expect("the primary handle was registered");
    assert_eq!(victim.raw(), 9001);
    assert!(!sup.has_managed_child());
    assert!(sup.shutdown().is_none());
}

#[test]
fn interleaved_triggers_share_one_registry() {
    // Three lifecycle triggers (menu quit, window destroyed, app exit)
    // converge on one locked registry: exactly one observes the handle.
    let registry = std::sync::Mutex::new(Registry::new());
    registry.lock().unwrap().store(ProcessHandle::from_raw(13));
    let mut winners: u32 = 0;
    for _ in 0..3 {
        let victim = match registry.lock() {
            Ok(mut guard) => shutdown(&mut guard),
            Err(_) => None,
        };
        if let Some(victim) = victim {
            assert_eq!(victim.raw(), 13);
            winners += 1;
        }
    }
    assert_eq!(winners, 1);
    assert!(!registry.lock().unwrap().has_handle());
}
