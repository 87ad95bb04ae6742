use proa::holistic_timeout::{StepResult, TimedEvent};
use proa::k8s::{classify_ready, main_cont_name, pod_name_from_hostname, ready_step};
use proa::k8s::{Classification, ReadyOutcome, WatchEvent};
use proa::snapshot::{ContainerState, ContainerStatus, PodSnapshot};

fn status(name: &str, ready: bool, state: Option<ContainerState>) -> ContainerStatus {
    ContainerStatus { name: name.to_string(), ready, started: Some(ready), state }
}

fn snapshot(
    containers: Vec<&str>,
    statuses: Option<Vec<ContainerStatus>>,
    restart_policy: Option<&str>,
) -> PodSnapshot {
    PodSnapshot {
        containers: containers.into_iter().map(|n| n.to_string()).collect(),
        container_statuses: statuses,
        restart_policy: restart_policy.map(|p| p.to_string()),
        termination_grace_period_seconds: None,
    }
}

fn snapshot_event(pod: PodSnapshot) -> StepResult<WatchEvent> {
    StepResult::Event(TimedEvent::Item(WatchEvent::Snapshot(pod)))
}

// Mirrors the readiness cases of the original watch filter: errors and
// not-ready snapshots keep the wait going, ready snapshots end it, and a
// terminated sidecar ends it only under restart policy "Never".
#[test]
fn check_ready() {
    // A watch error is transient: keep waiting.
    let r = ready_step(StepResult::Event(TimedEvent::Item(WatchEvent::Error(
        "foo".to_string(),
    ))));
    assert!(r.is_none());

    // A pod where only the main container exists and is ready.
    let pod = snapshot(
        vec!["cont1"],
        Some(vec![status("cont1", true, None)]),
        None,
    );
    assert!(matches!(
        ready_step(snapshot_event(pod)),
        Some(ReadyOutcome::Ready(_))
    ));

    // A pod with only the main container, which is not ready: there is no
    // sidecar to wait for.
    let pod = snapshot(
        vec!["cont1"],
        Some(vec![status("cont1", false, None)]),
        None,
    );
    assert!(matches!(
        ready_step(snapshot_event(pod)),
        Some(ReadyOutcome::Ready(_))
    ));

    // A pod with one ready sidecar.
    let pod = snapshot(
        vec!["cont1", "cont2"],
        Some(vec![status("cont1", true, None), status("cont2", true, None)]),
        None,
    );
    assert!(matches!(
        ready_step(snapshot_event(pod)),
        Some(ReadyOutcome::Ready(_))
    ));

    // A pod with one not-ready sidecar.
    let pod = snapshot(
        vec!["cont1", "cont2"],
        Some(vec![status("cont1", true, None), status("cont2", false, None)]),
        None,
    );
    assert!(ready_step(snapshot_event(pod)).is_none());

    // A pod with one ready sidecar and one not-ready sidecar.
    let pod = snapshot(
        vec!["cont1", "cont2", "cont3"],
        Some(vec![
            status("cont1", true, None),
            status("cont2", true, None),
            status("cont3", false, None),
        ]),
        None,
    );
    assert!(ready_step(snapshot_event(pod)).is_none());

    // A pod with two ready sidecars.
    let pod = snapshot(
        vec!["cont1", "cont2", "cont3"],
        Some(vec![
            status("cont1", true, None),
            status("cont2", true, None),
            status("cont3", true, None),
        ]),
        None,
    );
    assert!(matches!(
        ready_step(snapshot_event(pod)),
        Some(ReadyOutcome::Ready(_))
    ));

    // A sidecar that failed and will not be restarted.
    let pod = snapshot(
        vec!["cont1", "cont2"],
        Some(vec![
            status("cont1", true, None),
            status(
                "cont2",
                false,
                Some(ContainerState::Terminated { exit_code: 1 }),
            ),
        ]),
        Some("Never"),
    );
    assert!(matches!(
        ready_step(snapshot_event(pod)),
        Some(ReadyOutcome::Failed(_))
    ));

    // A sidecar that failed and will be restarted: keep waiting.
    let pod = snapshot(
        vec!["cont1", "cont2"],
        Some(vec![
            status("cont1", true, None),
            status(
                "cont2",
                false,
                Some(ContainerState::Terminated { exit_code: 1 }),
            ),
        ]),
        None,
    );
    assert!(ready_step(snapshot_event(pod)).is_none());
}

// A snapshot with a ready sidecar is classified ready.
#[test]
fn scenario_sidecar_ready() {
    let pod = snapshot(
        vec!["main", "side"],
        Some(vec![status("main", true, None), status("side", true, None)]),
        None,
    );
    assert_eq!(classify_ready(&pod), Classification::Ready);
}

// A sidecar whose status has not been reported yet is unknown, which is
// treated conservatively: not ready.
#[test]
fn scenario_sidecar_status_absent() {
    let pod = snapshot(
        vec!["main", "side"],
        Some(vec![status("main", true, None)]),
        None,
    );
    assert_eq!(classify_ready(&pod), Classification::NotReady);

    // The same holds when the pod reports no status block at all.
    let pod = snapshot(vec!["main", "side"], None, None);
    assert_eq!(classify_ready(&pod), Classification::NotReady);
}

// A terminated sidecar under restart policy "Never" is fatal.
#[test]
fn scenario_sidecar_terminated_never() {
    let pod = snapshot(
        vec!["main", "side"],
        Some(vec![
            status("main", true, None),
            status(
                "side",
                false,
                Some(ContainerState::Terminated { exit_code: 3 }),
            ),
        ]),
        Some("Never"),
    );
    assert_eq!(classify_ready(&pod), Classification::FatalError);
}

// A terminated sidecar under an absent restart policy keeps the wait going.
#[test]
fn scenario_sidecar_terminated_restartable() {
    let pod = snapshot(
        vec!["main", "side"],
        Some(vec![
            status("main", true, None),
            status(
                "side",
                false,
                Some(ContainerState::Terminated { exit_code: 3 }),
            ),
        ]),
        None,
    );
    assert_eq!(classify_ready(&pod), Classification::NotReady);

    // Any policy other than "Never" behaves the same.
    let pod = snapshot(
        vec!["main", "side"],
        Some(vec![
            status("main", true, None),
            status(
                "side",
                false,
                Some(ContainerState::Terminated { exit_code: 3 }),
            ),
        ]),
        Some("Always"),
    );
    assert_eq!(classify_ready(&pod), Classification::NotReady);
}

// A snapshot with no declared containers cannot be classified yet.
#[test]
fn classify_no_containers() {
    let pod = snapshot(vec![], None, None);
    assert_eq!(classify_ready(&pod), Classification::TransientError);
    let pod = snapshot(vec![], Some(vec![]), Some("Never"));
    assert_eq!(classify_ready(&pod), Classification::TransientError);
}

// A terminated-and-unrestartable sidecar takes priority over a stale ready
// bit: readiness observed simultaneously does not rescue it.
#[test]
fn classify_terminated_beats_ready() {
    let pod = snapshot(
        vec!["main", "side"],
        Some(vec![
            status("main", true, None),
            status(
                "side",
                true,
                Some(ContainerState::Terminated { exit_code: 0 }),
            ),
        ]),
        Some("Never"),
    );
    assert_eq!(classify_ready(&pod), Classification::FatalError);
}

// Classification is a pure function: the same snapshot classifies the same
// way twice.
#[test]
fn classify_idempotent() {
    let pod = snapshot(
        vec!["main", "side"],
        Some(vec![status("main", true, None), status("side", true, None)]),
        Some("Always"),
    );
    let first = classify_ready(&pod);
    let second = classify_ready(&pod);
    assert_eq!(first, second);
}

// The ready-wait phase's remaining event shapes: deadline, end of watch.
#[test]
fn ready_step_terminal_events() {
    let r = ready_step(StepResult::<WatchEvent>::Event(TimedEvent::DeadlineElapsed));
    assert!(matches!(r, Some(ReadyOutcome::TimedOut)));

    let r = ready_step(StepResult::<WatchEvent>::Completed);
    match r {
        Some(ReadyOutcome::Failed(m)) => assert_eq!(m, "watch ended unexpectedly"),
        _ => panic!("an ended watch must fail the ready wait"),
    }

    let r = ready_step(StepResult::<WatchEvent>::Pending);
    assert!(r.is_none());
}

// The fatal outcome carries the cause.
#[test]
fn ready_step_fatal_message() {
    let pod = snapshot(
        vec!["main", "side"],
        Some(vec![status(
            "side",
            false,
            Some(ContainerState::Terminated { exit_code: 1 }),
        )]),
        Some("Never"),
    );
    match ready_step(snapshot_event(pod)) {
        Some(ReadyOutcome::Failed(m)) => {
            assert_eq!(m, "a sidecar container terminated prematurely")
        }
        _ => panic!("a terminated sidecar under Never must fail the ready wait"),
    }
}

#[test]
fn main_container_is_first_declared() {
    let pod = snapshot(vec!["alpha", "beta"], None, None);
    assert_eq!(main_cont_name(&pod).map(|s| s.as_str()), Some("alpha"));
    let pod = snapshot(vec![], None, None);
    assert!(main_cont_name(&pod).is_none());
}

#[test]
fn hostname_domain_parts_are_stripped() {
    assert_eq!(pod_name_from_hostname("pod-1.ns.svc.cluster.local"), "pod-1");
    assert_eq!(pod_name_from_hostname("plain"), "plain");
    assert_eq!(pod_name_from_hostname(""), "");
    assert_eq!(pod_name_from_hostname(".hidden"), "");
}

#[test]
fn snapshot_well_formedness_is_name_uniqueness() {
    let pod = snapshot(
        vec!["main", "side"],
        Some(vec![status("main", true, None), status("side", true, None)]),
        None,
    );
    assert!(pod.is_wf());

    let pod = snapshot(vec!["main", "main"], None, None);
    assert!(!pod.is_wf());

    let pod = snapshot(
        vec!["main"],
        Some(vec![status("side", true, None), status("side", false, None)]),
        None,
    );
    assert!(!pod.is_wf());
}
