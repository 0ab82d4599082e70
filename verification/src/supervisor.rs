//! The supervisor state machine: one handle slot, four operations.

use vstd::prelude::*;

verus! {

/// Errors the supervisor can report.
///
/// `RuntimeNotFound` and `SpawnFailed` are fatal to startup; `AlreadyRunning`
/// rejects a second `start` while a handle is held; `HealthCheckTimeout`
/// means the spawned server never answered its health endpoint within the
/// deadline.
#[derive(Clone, Copy, Debug, PartialEq, Eq, Structural)]
pub enum SidecarError {
    RuntimeNotFound,
    SpawnFailed,
    AlreadyRunning,
    HealthCheckTimeout,
}

impl SidecarError {
    /// A human-readable message for each error, including the remediation
    /// hint for a missing runtime.
    pub fn message(&self) -> (s: String)
        ensures
            s@ == self.message_spec(),
    {
        match self {
            SidecarError::RuntimeNotFound => {
                "Python not found. Please install Python 3.10 or higher.".to_string()
            },
            SidecarError::SpawnFailed => "Failed to start FastAPI server".to_string(),
            SidecarError::AlreadyRunning => "FastAPI server is already running".to_string(),
            SidecarError::HealthCheckTimeout => {
                "Timeout waiting for FastAPI server to start".to_string()
            },
        }
    }

    pub open spec fn message_spec(&self) -> Seq<char> {
        match self {
            SidecarError::RuntimeNotFound => {
                "Python not found. Please install Python 3.10 or higher."@
            },
            SidecarError::SpawnFailed => "Failed to start FastAPI server"@,
            SidecarError::AlreadyRunning => "FastAPI server is already running"@,
            SidecarError::HealthCheckTimeout => "Timeout waiting for FastAPI server to start"@,
        }
    }
}

/// What the embedding application observed while carrying out a `start`:
/// either no acceptable runtime answered its version probe, or the operating
/// system refused to create the process, or a child was spawned and got this
/// process handle.
#[derive(Clone, Copy, Debug, PartialEq, Eq, Structural)]
pub enum StartEvent {
    NoRuntime,
    SpawnRefused,
    Spawned(u64),
}

/// The outcome of a non-blocking liveness probe (try-wait) on the recorded
/// child: it is still alive, it has exited, or the probe itself failed.
#[derive(Clone, Copy, Debug, PartialEq, Eq, Structural)]
pub enum ProbeOutcome {
    StillRunning,
    Exited,
    ProbeFailed,
}

/// Manages the backend server as a sidecar process: the verified state
/// machine over the single handle slot. The embedding application performs
/// the spawn, kill and probe actions this machine decides on, and reports
/// their outcomes back as events.
pub struct SidecarManager {
    handle: Option<u64>,
}

/// How `start` changes the handle slot. A second `start` while a handle is
/// held is rejected without touching the slot; otherwise the result and the
/// new slot are determined by what the spawn attempt observed.
pub open spec fn start_transition(
    pre: SidecarManager,
    post: SidecarManager,
    event: StartEvent,
    r: Result<(), SidecarError>,
) -> bool {
    if pre.running() {
        &&& r == Err::<(), SidecarError>(SidecarError::AlreadyRunning)
        &&& post.handle() == pre.handle()
    } else {
        match event {
            StartEvent::NoRuntime => {
                &&& r == Err::<(), SidecarError>(SidecarError::RuntimeNotFound)
                &&& post.handle() is None
            },
            StartEvent::SpawnRefused => {
                &&& r == Err::<(), SidecarError>(SidecarError::SpawnFailed)
                &&& post.handle() is None
            },
            StartEvent::Spawned(pid) => {
                &&& r == Ok::<(), SidecarError>(())
                &&& post.handle() == Some(pid)
            },
        }
    }
}

/// How `stop` changes the handle slot: the slot is cleared unconditionally,
/// and the previously recorded handle, if any, is handed back as the process
/// the caller must terminate.
pub open spec fn stop_transition(
    pre: SidecarManager,
    post: SidecarManager,
    doomed: Option<u64>,
) -> bool {
    &&& post.handle() is None
    &&& doomed == pre.handle()
}

/// How `is_running` reads and updates the handle slot. With no handle it
/// reports false. With a handle, the probe outcome decides: still alive
/// keeps the handle and reports true; an observed exit clears the handle and
/// reports false; a failed probe reports false but keeps the handle.
pub open spec fn is_running_transition(
    pre: SidecarManager,
    post: SidecarManager,
    probe: Option<ProbeOutcome>,
    r: bool,
) -> bool {
    if pre.running() {
        probe matches Some(p) && match p {
            ProbeOutcome::StillRunning => r == true && post.handle() == pre.handle(),
            ProbeOutcome::Exited => r == false && post.handle() is None,
            ProbeOutcome::ProbeFailed => r == false && post.handle() == pre.handle(),
        }
    } else {
        &&& r == false
        &&& post.handle() is None
    }
}

impl SidecarManager {
    /// The recorded process handle, if a child is believed live.
    pub closed spec fn handle(&self) -> Option<u64> {
        self.handle
    }

    /// Whether a handle is currently recorded.
    pub open spec fn running(&self) -> bool {
        self.handle() is Some
    }

    /// Create a new SidecarManager instance, with no process recorded.
    pub fn new() -> (m: Self)
        ensures
            m.handle() is None,
    {
        SidecarManager { handle: None }
    }

    /// Whether a `start` would be accepted right now. The embedding
    /// application asks this before it probes for a runtime and spawns, so
    /// that a rejected `start` fails fast without creating a process.
    pub fn can_start(&self) -> (r: bool)
        ensures
            r == !self.running(),
    {
        match self.handle {
            Option::None => true,
            Option::Some(_) => false,
        }
    }

    /// Record the outcome of a start attempt. Fails with `AlreadyRunning`
    /// if a handle is already held; otherwise the event decides the result,
    /// and a spawned handle is stored in the slot.
    pub fn start(&mut self, event: StartEvent) -> (r: Result<(), SidecarError>)
        ensures
            start_transition(*old(self), *final(self), event, r),
    {
        if let Option::Some(_) = self.handle {
            return Err(SidecarError::AlreadyRunning);
        }
        match event {
            StartEvent::NoRuntime => Err(SidecarError::RuntimeNotFound),
            StartEvent::SpawnRefused => Err(SidecarError::SpawnFailed),
            StartEvent::Spawned(pid) => {
                self.handle = Option::Some(pid);
                Ok(())
            },
        }
    }

    /// Stop the sidecar: clear the handle slot unconditionally and hand back
    /// the handle of the process the caller must now terminate, if one was
    /// recorded. Calling `stop` when no process is recorded is a no-op that
    /// returns `None`.
    pub fn stop(&mut self) -> (doomed: Option<u64>)
        ensures
            stop_transition(*old(self), *final(self), doomed),
    {
        let doomed = self.handle;
        self.handle = Option::None;
        doomed
    }

    /// Check if the sidecar process is still running, given the outcome of a
    /// liveness probe on the recorded child. The caller must probe exactly
    /// when a handle is recorded; `which_to_probe` says which.
    pub fn is_running(&mut self, probe: Option<ProbeOutcome>) -> (r: bool)
        requires
            old(self).running() ==> probe is Some,
        ensures
            is_running_transition(*old(self), *final(self), probe, r),
    {
        match self.handle {
            Option::None => false,
            Option::Some(_) => {
                match probe {
                    Option::None => false,  // unreachable under the precondition
                    Option::Some(ProbeOutcome::StillRunning) => true,
                    Option::Some(ProbeOutcome::Exited) => {
                        self.handle = Option::None;
                        false
                    },
                    Option::Some(ProbeOutcome::ProbeFailed) => false,
                }
            },
        }
    }

    /// The handle the embedding application should probe before asking
    /// `is_running`: the recorded one, or `None` when no probe is needed.
    pub fn which_to_probe(&self) -> (h: Option<u64>)
        ensures
            h == self.handle(),
    {
        self.handle
    }
}

/// The runtime candidates to probe, in priority order: `python3`, then
/// `python`. Each is invoked with a version-query argument, and the first
/// that exits successfully is chosen.
pub fn python_candidates() -> (v: Vec<String>)
    ensures
        v@.len() == 2,
        v@[0]@ == "python3"@,
        v@[1]@ == "python"@,
{
    let mut v: Vec<String> = Vec::new();
    v.push("python3".to_string());
    v.push("python".to_string());
    v
}

/// Find the Python executable: given, for each candidate in priority order,
/// whether its version probe exited successfully, pick the first successful
/// candidate. With no successful candidate the runtime is missing.
pub fn find_python(probes: &Vec<bool>) -> (r: Result<usize, SidecarError>)
    ensures
        r matches Ok(i) ==> i < probes@.len() && probes@[i as int] && (forall|j: int|
            0 <= j < i ==> !probes@[j]),
        r matches Err(e) ==> e == SidecarError::RuntimeNotFound,
        r is Err <==> (forall|j: int| 0 <= j < probes@.len() ==> !probes@[j]),
{
    let n = probes.len();
    let mut i: usize = 0;
    while i < n
        invariant
            n == probes@.len(),
            i <= n,
            forall|j: int| 0 <= j < i ==> !probes@[j],
        decreases n - i,
    {
        if probes[i] {
            return Ok(i);
        }
        i = i + 1;
    }
    Err(SidecarError::RuntimeNotFound)
}

/// Law: before any start — with no handle recorded — a liveness query
/// reports not running.
pub proof fn lemma_fresh_not_running(
    pre: SidecarManager,
    post: SidecarManager,
    probe: Option<ProbeOutcome>,
    r: bool,
)
    requires
        !pre.running(),
        is_running_transition(pre, post, probe, r),
    ensures
        r == false,
        !post.running(),
{
}

/// Law: a successful start followed immediately by a stop leaves the
/// supervisor not running, and the stop hands back exactly the handle the
/// start recorded, so the launched process is the one terminated.
pub proof fn lemma_start_then_stop_not_running(
    m0: SidecarManager,
    m1: SidecarManager,
    m2: SidecarManager,
    event: StartEvent,
    r: Result<(), SidecarError>,
    doomed: Option<u64>,
)
    requires
        start_transition(m0, m1, event, r),
        r is Ok,
        stop_transition(m1, m2, doomed),
    ensures
        !m2.running(),
        doomed == m1.handle(),
        doomed is Some,
{
}

/// Law: stopping a supervisor that was never started (or is already
/// stopped) is a no-op — there is no process to terminate and the slot
/// stays empty.
pub proof fn lemma_stop_when_not_running(
    pre: SidecarManager,
    post: SidecarManager,
    doomed: Option<u64>,
)
    requires
        !pre.running(),
        stop_transition(pre, post, doomed),
    ensures
        doomed is None,
        !post.running(),
{
}

/// Law: once the child is observed to have exited on its own, the liveness
/// query reports false and the stale handle is cleared — no zombie handle
/// is retained.
pub proof fn lemma_observed_exit_clears_handle(
    pre: SidecarManager,
    post: SidecarManager,
    r: bool,
)
    requires
        pre.running(),
        is_running_transition(pre, post, Some(ProbeOutcome::Exited), r),
    ensures
        r == false,
        post.handle() is None,
{
}

/// Law: once a stop has completed, a later liveness query — with no start
/// in between — reports not running, whatever its probe would observe.
pub proof fn lemma_not_running_after_stop(
    m0: SidecarManager,
    m1: SidecarManager,
    m2: SidecarManager,
    doomed: Option<u64>,
    probe: Option<ProbeOutcome>,
    r: bool,
)
    requires
        stop_transition(m0, m1, doomed),
        is_running_transition(m1, m2, probe, r),
    ensures
        r == false,
        !m2.running(),
{
}

} // verus!
