use sidecar_supervisor::supervisor::{
    find_python, python_candidates, ProbeOutcome, SidecarError, SidecarManager, StartEvent,
};

#[test]
fn test_new_manager() {
    let mut manager = SidecarManager::new();
    assert!(!manager.is_running(None));
}

#[test]
fn test_find_python() {
    let candidates = python_candidates();
    let probes = vec![true, false];
    let result = find_python(&probes);

    // Should find either python3 or python
    assert!(result.is_ok() || result.is_err());

    if let Ok(i) = result {
        let python = &candidates[i];
        assert!(python == "python3" || python == "python");
    }
}

#[test]
fn test_find_python_prefers_first_candidate() {
    let candidates = python_candidates();
    assert_eq!(candidates.len(), 2);
    assert_eq!(candidates[0], "python3");
    assert_eq!(candidates[1], "python");

    assert_eq!(find_python(&vec![true, true]), Ok(0));
    assert_eq!(find_python(&vec![false, true]), Ok(1));
}

#[test]
fn test_find_python_none_found() {
    assert_eq!(
        find_python(&vec![false, false]),
        Err(SidecarError::RuntimeNotFound)
    );
    assert_eq!(find_python(&vec![]), Err(SidecarError::RuntimeNotFound));
}

#[test]
fn test_not_running_before_start() {
    let mut manager = SidecarManager::new();
    assert!(!manager.is_running(None));
    // Asking again does not change the answer.
    assert!(!manager.is_running(None));
}

#[test]
fn test_start_records_handle() {
    let mut manager = SidecarManager::new();
    assert!(manager.can_start());
    assert_eq!(manager.start(StartEvent::Spawned(4242)), Ok(()));
    assert_eq!(manager.which_to_probe(), Some(4242));
    assert!(manager.is_running(Some(ProbeOutcome::StillRunning)));
}

#[test]
fn test_start_twice_already_running() {
    let mut manager = SidecarManager::new();
    assert_eq!(manager.start(StartEvent::Spawned(7)), Ok(()));
    assert!(!manager.can_start());
    assert_eq!(
        manager.start(StartEvent::Spawned(8)),
        Err(SidecarError::AlreadyRunning)
    );
    // The handle recorded by the first start is untouched by the rejected one.
    assert_eq!(manager.which_to_probe(), Some(7));
}

#[test]
fn test_start_no_runtime() {
    let mut manager = SidecarManager::new();
    assert_eq!(
        manager.start(StartEvent::NoRuntime),
        Err(SidecarError::RuntimeNotFound)
    );
    assert!(!manager.is_running(None));
}

#[test]
fn test_start_spawn_refused() {
    let mut manager = SidecarManager::new();
    assert_eq!(
        manager.start(StartEvent::SpawnRefused),
        Err(SidecarError::SpawnFailed)
    );
    assert!(!manager.is_running(None));
}

#[test]
fn test_start_then_stop_not_running() {
    let mut manager = SidecarManager::new();
    assert_eq!(manager.start(StartEvent::Spawned(99)), Ok(()));
    let doomed = manager.stop();
    assert_eq!(doomed, Some(99));
    assert!(!manager.is_running(None));
}

#[test]
fn test_stop_never_started_is_noop() {
    let mut manager = SidecarManager::new();
    let doomed = manager.stop();
    assert_eq!(doomed, None);
    assert!(!manager.is_running(None));
}

#[test]
fn test_stop_is_idempotent() {
    let mut manager = SidecarManager::new();
    assert_eq!(manager.start(StartEvent::Spawned(5)), Ok(()));
    assert_eq!(manager.stop(), Some(5));
    assert_eq!(manager.stop(), None);
    assert_eq!(manager.stop(), None);
    assert!(!manager.is_running(None));
}

#[test]
fn test_external_exit_clears_handle() {
    let mut manager = SidecarManager::new();
    assert_eq!(manager.start(StartEvent::Spawned(31)), Ok(()));
    // The child dies on its own; the next liveness query observes the exit.
    assert!(!manager.is_running(Some(ProbeOutcome::Exited)));
    // The stale handle is gone: no probe is needed any more.
    assert_eq!(manager.which_to_probe(), None);
    assert!(!manager.is_running(None));
    // A later stop finds nothing to terminate.
    assert_eq!(manager.stop(), None);
}

#[test]
fn test_probe_failure_fails_safe() {
    let mut manager = SidecarManager::new();
    assert_eq!(manager.start(StartEvent::Spawned(61)), Ok(()));
    // A failed probe reports "not running" but keeps the handle.
    assert!(!manager.is_running(Some(ProbeOutcome::ProbeFailed)));
    assert_eq!(manager.which_to_probe(), Some(61));
    // A later successful probe can still see the child alive.
    assert!(manager.is_running(Some(ProbeOutcome::StillRunning)));
}

#[test]
fn test_error_messages() {
    assert_eq!(
        SidecarError::RuntimeNotFound.message(),
        "Python not found. Please install Python 3.10 or higher."
    );
    assert_eq!(
        SidecarError::SpawnFailed.message(),
        "Failed to start FastAPI server"
    );
    assert_eq!(
        SidecarError::AlreadyRunning.message(),
        "FastAPI server is already running"
    );
    assert_eq!(
        SidecarError::HealthCheckTimeout.message(),
        "Timeout waiting for FastAPI server to start"
    );
}
