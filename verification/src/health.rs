//! The health-check poll loop: constants, status classification, and the
//! decision logic that turns a schedule of probe observations into success
//! or a timeout.

use vstd::prelude::*;
use crate::supervisor::SidecarError;

verus! {

/// Overall deadline for the server to become healthy, in milliseconds.
pub const HEALTH_DEADLINE_MS: u64 = 10000;

/// Per-request timeout of a single health probe, in milliseconds; shorter
/// than the overall deadline.
pub const HEALTH_REQUEST_TIMEOUT_MS: u64 = 2000;

/// Fixed backoff slept between failed probes, in milliseconds.
pub const HEALTH_POLL_BACKOFF_MS: u64 = 500;

/// What one probe of the health endpoint observed: an HTTP response with
/// the given status code, or no response at all (connection refused or the
/// request timed out).
#[derive(Clone, Copy, Debug, PartialEq, Eq, Structural)]
pub enum HealthObservation {
    Responded(u16),
    NoResponse,
}

/// Whether an HTTP status code counts as success.
pub open spec fn status_is_success(status: u16) -> bool {
    200 <= status < 300
}

/// Whether an HTTP status code counts as success (2xx).
pub fn is_success_status(status: u16) -> (r: bool)
    ensures
        r == status_is_success(status),
{
    200 <= status && status < 300
}

/// A probe observation means the server is ready exactly when it answered
/// with a success status.
pub open spec fn observation_ready(obs: HealthObservation) -> bool {
    obs matches HealthObservation::Responded(status) && status_is_success(status)
}

/// What the poll loop does after a probe: report the server ready, or sleep
/// for the fixed backoff and try again.
#[derive(Clone, Copy, Debug, PartialEq, Eq, Structural)]
pub enum HealthAction {
    Ready,
    Sleep(u64),
}

/// The loop guard: keep polling while the elapsed time is still within the
/// overall deadline.
pub fn should_poll(elapsed_ms: u64, deadline_ms: u64) -> (r: bool)
    ensures
        r == (elapsed_ms < deadline_ms),
{
    elapsed_ms < deadline_ms
}

/// The loop body's decision after one probe: a success response means the
/// server is ready, and the wait ends at once; anything else means sleep
/// for the fixed backoff and retry.
pub fn health_step(obs: &HealthObservation) -> (a: HealthAction)
    ensures
        observation_ready(*obs) ==> a == HealthAction::Ready,
        !observation_ready(*obs) ==> a == HealthAction::Sleep(HEALTH_POLL_BACKOFF_MS),
{
    match obs {
        HealthObservation::Responded(status) => {
            if is_success_status(*status) {
                HealthAction::Ready
            } else {
                HealthAction::Sleep(HEALTH_POLL_BACKOFF_MS)
            }
        },
        HealthObservation::NoResponse => HealthAction::Sleep(HEALTH_POLL_BACKOFF_MS),
    }
}

/// One round of the poll loop: the elapsed time when the loop guard was
/// checked, and what the probe made in that round observed.
#[derive(Clone, Copy, Debug, PartialEq, Eq, Structural)]
pub struct HealthRound {
    pub elapsed_ms: u64,
    pub observation: HealthObservation,
}

/// The round begins past the overall deadline: the guard stops the loop
/// before any probe is made.
pub open spec fn round_times_out(r: HealthRound, deadline_ms: u64) -> bool {
    r.elapsed_ms >= deadline_ms
}

/// The round's probe finds the server ready, within the deadline.
pub open spec fn round_ready(r: HealthRound, deadline_ms: u64) -> bool {
    !round_times_out(r, deadline_ms) && observation_ready(r.observation)
}

/// The round decides nothing: within the deadline, but the probe failed, so
/// the loop sleeps and goes on.
pub open spec fn round_undecided(r: HealthRound, deadline_ms: u64) -> bool {
    !round_times_out(r, deadline_ms) && !observation_ready(r.observation)
}

/// The schedule reaches a decision: some round either begins past the
/// deadline or finds the server ready.
pub open spec fn rounds_decide(rounds: Seq<HealthRound>, deadline_ms: u64) -> bool {
    exists|i: int| 0 <= i < rounds.len() && !round_undecided(rounds[i], deadline_ms)
}

/// Elapsed times never decrease from one round to the next.
pub open spec fn rounds_monotone(rounds: Seq<HealthRound>) -> bool {
    forall|i: int, j: int|
        0 <= i <= j < rounds.len() ==> rounds[i].elapsed_ms <= rounds[j].elapsed_ms
}

/// What `wait_for_health` returns: success names the first round whose
/// probe found the server ready, every earlier round having been an
/// undecided retry; a timeout means some round began past the deadline with
/// every earlier round an undecided retry.
pub open spec fn wait_for_health_post(
    rounds: Seq<HealthRound>,
    deadline_ms: u64,
    r: Result<usize, SidecarError>,
) -> bool {
    match r {
        Ok(i) => {
            &&& 0 <= i < rounds.len()
            &&& round_ready(rounds[i as int], deadline_ms)
            &&& forall|j: int| 0 <= j < i ==> round_undecided(rounds[j], deadline_ms)
        },
        Err(e) => {
            &&& e == SidecarError::HealthCheckTimeout
            &&& exists|i: int|
                {
                    &&& 0 <= i < rounds.len()
                    &&& round_times_out(rounds[i], deadline_ms)
                    &&& forall|j: int| 0 <= j < i ==> round_undecided(rounds[j], deadline_ms)
                }
        },
    }
}

/// Wait for the server to become healthy, within the given overall
/// deadline, over a given schedule of poll rounds: walk the rounds in
/// order, stop with a timeout at the first round that begins past the
/// deadline, stop with success at the first round whose probe finds the
/// server ready, and otherwise sleep and go on. The schedule must reach a
/// decision.
pub fn wait_for_health(rounds: &Vec<HealthRound>, deadline_ms: u64) -> (r: Result<
    usize,
    SidecarError,
>)
    requires
        rounds_decide(rounds@, deadline_ms),
    ensures
        wait_for_health_post(rounds@, deadline_ms, r),
{
    let n = rounds.len();
    let mut i: usize = 0;
    loop
        invariant
            n == rounds@.len(),
            0 <= i <= n,
            rounds_decide(rounds@, deadline_ms),
            forall|j: int| 0 <= j < i ==> round_undecided(rounds@[j], deadline_ms),
        decreases n - i,
    {
        if i >= n {
            // Every round was an undecided retry, contradicting the
            // requirement that the schedule reaches a decision.
            proof {
                let w = choose|k: int|
                    0 <= k < rounds@.len() && !round_undecided(rounds@[k], deadline_ms);
                assert(round_undecided(rounds@[w], deadline_ms));
            }
            unreached()
        } else {
            let round = rounds[i];
            if !should_poll(round.elapsed_ms, deadline_ms) {
                return Err(SidecarError::HealthCheckTimeout);
            }
            match health_step(&round.observation) {
                HealthAction::Ready => {
                    return Ok(i);
                },
                HealthAction::Sleep(_) => {
                    i = i + 1;
                },
            }
        }
    }
}

/// Law: over a monotone schedule, if some round within the deadline finds
/// the server ready, the wait succeeds — the first success ends it.
pub proof fn lemma_health_ready_yields_ok(
    rounds: Seq<HealthRound>,
    deadline_ms: u64,
    r: Result<usize, SidecarError>,
)
    requires
        wait_for_health_post(rounds, deadline_ms, r),
        rounds_monotone(rounds),
        exists|i: int| 0 <= i < rounds.len() && round_ready(rounds[i], deadline_ms),
    ensures
        r is Ok,
{
    if r is Err {
        let i = choose|i: int| 0 <= i < rounds.len() && round_ready(rounds[i], deadline_ms);
        let t = choose|t: int|
            {
                &&& 0 <= t < rounds.len()
                &&& round_times_out(rounds[t], deadline_ms)
                &&& forall|j: int| 0 <= j < t ==> round_undecided(rounds[j], deadline_ms)
            };
        if i < t {
            assert(round_undecided(rounds[i], deadline_ms));
        } else {
            assert(rounds[t].elapsed_ms <= rounds[i].elapsed_ms);
        }
    }
}

/// Law: if no probe ever finds the server ready, the wait reports a
/// health-check timeout.
pub proof fn lemma_health_never_ready_times_out(
    rounds: Seq<HealthRound>,
    deadline_ms: u64,
    r: Result<usize, SidecarError>,
)
    requires
        wait_for_health_post(rounds, deadline_ms, r),
        forall|i: int| 0 <= i < rounds.len() ==> !observation_ready(rounds[i].observation),
    ensures
        r == Err::<usize, SidecarError>(SidecarError::HealthCheckTimeout),
{
    match r {
        Ok(i) => {
            assert(round_ready(rounds[i as int], deadline_ms));
        },
        Err(_) => {},
    }
}

} // verus!
