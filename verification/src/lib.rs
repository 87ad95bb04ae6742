//! Coordination core for a sidecar-aware pod entrypoint.
//!
//! The library holds the decision logic of the coordinator: a holistic
//! timeout state machine that bounds a whole event sequence by one deadline,
//! a readiness classifier over pod snapshots, the ready-wait and
//! shutdown-wait state machines driven by watch events, the shutdown
//! notification policy, and the mapping from workload status to the process
//! exit code. All I/O (the pod watch, HTTP calls, signals, process spawning)
//! stays outside; callers feed plain values in and act on the returned
//! decisions.

pub mod holistic_timeout;
pub mod k8s;
pub mod shutdown;
pub mod snapshot;
pub mod workload;
