//! Readiness classification over pod snapshots.
//!
//! The first declared container is the main container; every other declared
//! container is a sidecar. A snapshot is ready when every sidecar reports a
//! status with readiness set, no sidecar has terminated, and at least one
//! container is declared. A terminated sidecar is fatal exactly when the
//! restart policy is `"Never"`; under any other (or an absent) policy the
//! platform restarts the sidecar, so the snapshot only counts as not ready.

use vstd::prelude::*;

use crate::holistic_timeout::{StepResult, TimedEvent};
use crate::snapshot::{lookup_status, ContainerState, ContainerStatus, PodSnapshot};

verus! {

/// One observation delivered by the watch on the pod: a fresh snapshot, or
/// a failed observation with its cause.
#[derive(Clone, Debug)]
pub enum WatchEvent {
    Snapshot(PodSnapshot),
    Error(String),
}

/// The terminal result of the ready-wait phase.
#[derive(Clone, Debug)]
pub enum ReadyOutcome {
    /// Every sidecar became ready; the snapshot that showed it.
    Ready(PodSnapshot),
    /// The phase failed for good; the main workload must not start.
    Failed(String),
    /// The ready-wait deadline elapsed first.
    TimedOut,
}

/// What one pod snapshot tells the ready-wait phase.
#[derive(Clone, Copy, Debug, PartialEq, Eq, Structural)]
pub enum Classification {
    /// Some sidecar is not ready yet (or will be restarted); keep waiting.
    NotReady,
    /// Every sidecar reports readiness; the main workload may start.
    Ready,
    /// The snapshot cannot be classified yet (no declared containers).
    TransientError,
    /// A sidecar terminated and will never be restarted.
    FatalError,
}

/// Whether the sidecar at position `i` reports a status with readiness set.
/// An absent status never counts as ready.
pub open spec fn sidecar_ready(pod: PodSnapshot, i: int) -> bool {
    match pod.status_of(pod.containers@[i]@) {
        Some(st) => st.ready,
        None => false,
    }
}

/// Whether the sidecar at position `i` reports a terminated lifecycle state.
pub open spec fn sidecar_terminated(pod: PodSnapshot, i: int) -> bool {
    match pod.status_of(pod.containers@[i]@) {
        Some(st) => st.state matches Some(ContainerState::Terminated { .. }),
        None => false,
    }
}

/// Every declared sidecar reports a status with readiness set.
pub open spec fn all_sidecars_ready(pod: PodSnapshot) -> bool {
    forall|i: int| 1 <= i < pod.containers@.len() ==> sidecar_ready(pod, i)
}

/// Some declared sidecar reports a terminated lifecycle state.
pub open spec fn any_sidecar_terminated(pod: PodSnapshot) -> bool {
    exists|i: int| 1 <= i < pod.containers@.len() && sidecar_terminated(pod, i)
}

/// The restart policy is exactly `"Never"`.
pub open spec fn policy_is_never(pod: PodSnapshot) -> bool {
    pod.restart_policy matches Some(p) && p@ == "Never"@
}

/// The classification of one snapshot. A terminated, never-restarted sidecar
/// takes priority over full readiness: a sidecar that already exited cannot
/// be trusted even if its last reported readiness bit was true.
pub open spec fn spec_classify(pod: PodSnapshot) -> Classification {
    if pod.containers@.len() == 0 {
        Classification::TransientError
    } else if any_sidecar_terminated(pod) {
        if policy_is_never(pod) {
            Classification::FatalError
        } else {
            Classification::NotReady
        }
    } else if all_sidecars_ready(pod) {
        Classification::Ready
    } else {
        Classification::NotReady
    }
}

/// The pod's name as derived from the host name: everything before the
/// first `'.'`. Domain parts are stripped in case the host name was set to
/// the fully qualified form.
pub fn pod_name_from_hostname(host: &str) -> (r: &str)
    ensures
        r@.len() <= host@.len(),
        r@ == host@.subrange(0, r@.len() as int),
        forall|j: int| 0 <= j < r@.len() ==> host@[j] != '.',
        r@.len() < host@.len() ==> host@[r@.len() as int] == '.',
{
    let n = host.unicode_len();
    let mut i: usize = 0;
    while i < n
        invariant
            i <= n,
            n == host@.len(),
            forall|j: int| 0 <= j < i ==> host@[j] != '.',
        decreases n - i,
    {
        if host.get_char(i) == '.' {
            return host.substring_char(0, i);
        }
        i += 1;
    }
    proof {
        assert(host@.subrange(0, host@.len() as int) =~= host@);
    }
    host
}

/// The name of the main container: the first declared container, if any.
pub fn main_cont_name<'a>(pod: &'a PodSnapshot) -> (r: Option<&'a String>)
    ensures
        match r {
            Some(n) => pod.containers@.len() > 0 && n == pod.containers@[0],
            None => pod.containers@.len() == 0,
        },
{
    if pod.containers.len() == 0 {
        None
    } else {
        Some(&pod.containers[0])
    }
}

/// Classifies one pod snapshot for the ready-wait phase.
pub fn classify_ready(pod: &PodSnapshot) -> (r: Classification)
    ensures
        r == spec_classify(*pod),
{
    let n = pod.containers.len();
    if n == 0 {
        return Classification::TransientError;
    }
    let mut all_ready = true;
    let mut any_term = false;
    let mut i: usize = 1;
    while i < n
        invariant
            1 <= i <= n,
            n == pod.containers@.len(),
            all_ready == (forall|j: int| 1 <= j < i ==> sidecar_ready(*pod, j)),
            any_term == (exists|j: int| 1 <= j < i && sidecar_terminated(*pod, j)),
        decreases n - i,
    {
        let name = &pod.containers[i];
        let st: Option<&ContainerStatus> = match &pod.container_statuses {
            Some(sts) => lookup_status(sts, name),
            None => None,
        };
        let (ready_i, term_i): (bool, bool) = match st {
            Some(cs) => {
                let term = match &cs.state {
                    Some(ContainerState::Terminated { .. }) => true,
                    _ => false,
                };
                (cs.ready, term)
            },
            None => (false, false),
        };
        proof {
            assert(ready_i == sidecar_ready(*pod, i as int));
            assert(term_i == sidecar_terminated(*pod, i as int));
        }
        if !ready_i {
            all_ready = false;
        }
        if term_i {
            any_term = true;
        }
        i += 1;
    }
    if any_term {
        if is_never_policy(&pod.restart_policy) {
            Classification::FatalError
        } else {
            Classification::NotReady
        }
    } else if all_ready {
        Classification::Ready
    } else {
        Classification::NotReady
    }
}

/// Decides whether a restart policy is exactly `"Never"`.
fn is_never_policy(policy: &Option<String>) -> (b: bool)
    ensures
        b == (policy matches Some(p) && p@ == "Never"@),
{
    match policy {
        Some(p) => {
            let never: String = "Never".to_owned();
            *p == never
        },
        None => false,
    }
}

/// Advances the ready-wait state machine by one timed watch event. `None`
/// means keep watching; `Some` is the phase's terminal outcome, and only
/// the first terminal event counts — the caller stops consuming there.
///
/// A failed observation is transient and never aborts the wait; a snapshot
/// decides by its classification; an elapsed deadline times the phase out;
/// an ended watch is a failure, since readiness was never seen.
pub fn ready_step(event: StepResult<WatchEvent>) -> (r: Option<ReadyOutcome>)
    ensures
        match event {
            StepResult::Event(TimedEvent::Item(WatchEvent::Snapshot(s))) => match spec_classify(
                s,
            ) {
                Classification::Ready => r == Some(ReadyOutcome::Ready(s)),
                Classification::FatalError => r matches Some(ReadyOutcome::Failed(m))
                    && m@ == "a sidecar container terminated prematurely"@,
                Classification::NotReady => r is None,
                Classification::TransientError => r is None,
            },
            StepResult::Event(TimedEvent::Item(WatchEvent::Error(_))) => r is None,
            StepResult::Event(TimedEvent::DeadlineElapsed) => r == Some(ReadyOutcome::TimedOut),
            StepResult::Completed => r matches Some(ReadyOutcome::Failed(m)) && m@
                == "watch ended unexpectedly"@,
            StepResult::Pending => r is None,
        },
{
    match event {
        StepResult::Event(TimedEvent::Item(WatchEvent::Snapshot(s))) => {
            match classify_ready(&s) {
                Classification::Ready => Some(ReadyOutcome::Ready(s)),
                Classification::FatalError => Some(
                    ReadyOutcome::Failed("a sidecar container terminated prematurely".to_owned()),
                ),
                Classification::NotReady => None,
                Classification::TransientError => None,
            }
        },
        StepResult::Event(TimedEvent::Item(WatchEvent::Error(_))) => None,
        StepResult::Event(TimedEvent::DeadlineElapsed) => Some(ReadyOutcome::TimedOut),
        StepResult::Completed => Some(ReadyOutcome::Failed("watch ended unexpectedly".to_owned())),
        StepResult::Pending => None,
    }
}

/// Re-classifying the same snapshot yields the same result: classification
/// is a pure function of the snapshot, with no hidden state.
pub proof fn lemma_classify_deterministic(a: PodSnapshot, b: PodSnapshot)
    requires
        a == b,
    ensures
        spec_classify(a) == spec_classify(b),
{
}

/// A snapshot with zero declared containers cannot be classified yet: it is
/// a transient error, never ready.
pub proof fn lemma_classify_no_containers(pod: PodSnapshot)
    requires
        pod.containers@.len() == 0,
    ensures
        spec_classify(pod) is TransientError,
        !(spec_classify(pod) is Ready),
{
}

/// When every sidecar reports readiness and none is terminated, the snapshot
/// is ready.
pub proof fn lemma_classify_all_ready(pod: PodSnapshot)
    requires
        pod.containers@.len() > 0,
        all_sidecars_ready(pod),
        !any_sidecar_terminated(pod),
    ensures
        spec_classify(pod) is Ready,
{
}

/// A terminated sidecar under restart policy `"Never"` is fatal, regardless
/// of what the other sidecars report.
pub proof fn lemma_classify_terminated_never(pod: PodSnapshot)
    requires
        any_sidecar_terminated(pod),
        policy_is_never(pod),
    ensures
        spec_classify(pod) is FatalError,
{
}

/// A terminated sidecar under an absent restart policy, or any policy other
/// than `"Never"`, only means the snapshot is not ready yet: the platform
/// will restart the sidecar.
pub proof fn lemma_classify_terminated_restartable(pod: PodSnapshot)
    requires
        any_sidecar_terminated(pod),
        !policy_is_never(pod),
    ensures
        spec_classify(pod) is NotReady,
{
}

} // verus!
