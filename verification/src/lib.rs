//! Verified core of a sidecar process supervisor.
//!
//! The supervisor launches, health-checks, monitors, and terminates a single
//! out-of-process backend server. This crate holds the decision logic of that
//! lifecycle as a verified state machine over plain values: which runtime
//! candidate to launch, how the handle slot changes on start, stop and
//! liveness probes, and when the health-check poll loop succeeds or times
//! out. The surrounding process, network and timer work is performed by the
//! embedding application, which feeds the observed outcomes back into these
//! functions as events.

pub mod health;
pub mod supervisor;
