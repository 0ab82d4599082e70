// End-to-end shape of the supervisor's life, played against the verified
// state machine: the backend comes up after a short delay, is waited for,
// and is shut down cleanly.

use sidecar_supervisor::health::{wait_for_health, HealthObservation, HealthRound, HEALTH_DEADLINE_MS};
use sidecar_supervisor::supervisor::{
    find_python, ProbeOutcome, SidecarError, SidecarManager, StartEvent,
};

fn round(elapsed_ms: u64, observation: HealthObservation) -> HealthRound {
    HealthRound {
        elapsed_ms,
        observation,
    }
}

#[test]
fn test_full_lifecycle_scenario() {
    let mut manager = SidecarManager::new();

    // Nothing is running before start.
    assert!(!manager.is_running(None));

    // The runtime probe finds python3; the spawn succeeds.
    let probes = vec![true, false];
    assert_eq!(find_python(&probes), Ok(0));
    assert!(manager.can_start());
    assert_eq!(manager.start(StartEvent::Spawned(1234)), Ok(()));

    // The server starts answering its health endpoint after about 150 ms:
    // the first probes find nothing, then a success response ends the wait
    // well within a one-second deadline.
    let rounds = vec![
        round(0, HealthObservation::NoResponse),
        round(50, HealthObservation::NoResponse),
        round(100, HealthObservation::NoResponse),
        round(150, HealthObservation::Responded(200)),
    ];
    assert_eq!(wait_for_health(&rounds, 1000), Ok(3));

    // The child is alive while we use it.
    assert!(manager.is_running(Some(ProbeOutcome::StillRunning)));

    // Shutdown: stop hands back the spawned handle to terminate, and
    // afterwards nothing is reported running.
    assert_eq!(manager.stop(), Some(1234));
    assert!(!manager.is_running(None));
}

#[test]
fn test_degraded_startup_scenario() {
    // The backend spawns but never becomes healthy: the wait reports a
    // timeout, the host keeps running degraded, and shutdown still works.
    let mut manager = SidecarManager::new();
    assert_eq!(manager.start(StartEvent::Spawned(88)), Ok(()));

    let mut rounds = Vec::new();
    let mut elapsed: u64 = 0;
    while elapsed <= 10_000 {
        rounds.push(round(elapsed, HealthObservation::Responded(500)));
        elapsed += 500;
    }
    assert_eq!(
        wait_for_health(&rounds, HEALTH_DEADLINE_MS),
        Err(SidecarError::HealthCheckTimeout)
    );

    // The process itself is still alive and can be stopped.
    assert!(manager.is_running(Some(ProbeOutcome::StillRunning)));
    assert_eq!(manager.stop(), Some(88));
    assert!(!manager.is_running(None));
}
