//! The shutdown phase: the notification policy (which HTTP targets to call
//! and which processes to signal) and the shutdown-wait state machine that
//! watches the pod until only the main container is still running, bounded
//! by the pod's grace period.
//!
//! The "done" predicate is a coarse proxy: it checks that exactly one
//! declared container still reports a running state, not *which* one, so a
//! sidecar outliving the main container would be misread as done. That
//! limitation is kept deliberately.

use vstd::prelude::*;

use crate::holistic_timeout::{StepResult, TimedEvent};
use crate::k8s::WatchEvent;
use crate::snapshot::{lookup_status, ContainerState, ContainerStatus, PodSnapshot};

verus! {

/// The grace period used when the pod does not configure a usable one.
pub const DEFAULT_GRACE_PERIOD_SECONDS: u64 = 30;

/// The deadline for the shutdown-wait phase, in seconds: the pod's
/// configured termination grace period when present and non-negative, else
/// the default of thirty seconds.
pub fn grace_period_seconds(tgps: &Option<i64>) -> (s: u64)
    ensures
        match *tgps {
            Some(x) => if x >= 0 {
                s == x
            } else {
                s == DEFAULT_GRACE_PERIOD_SECONDS
            },
            None => s == DEFAULT_GRACE_PERIOD_SECONDS,
        },
{
    match tgps {
        Some(x) => {
            if *x >= 0 {
                *x as u64
            } else {
                DEFAULT_GRACE_PERIOD_SECONDS
            }
        },
        None => DEFAULT_GRACE_PERIOD_SECONDS,
    }
}

/// Whether the declared container at position `i` reports a running
/// lifecycle state. An absent status does not count as running.
pub open spec fn container_running(pod: PodSnapshot, i: int) -> bool {
    match pod.status_of(pod.containers@[i]@) {
        Some(st) => st.state matches Some(ContainerState::Running),
        None => false,
    }
}

/// How many of the first `i` declared containers report a running state.
pub open spec fn running_prefix_count(pod: PodSnapshot, i: int) -> int
    decreases i,
{
    if i <= 0 {
        0
    } else {
        running_prefix_count(pod, i - 1) + (if container_running(pod, i - 1) {
            1int
        } else {
            0int
        })
    }
}

/// How many declared containers report a running state.
pub open spec fn spec_running_count(pod: PodSnapshot) -> int {
    running_prefix_count(pod, pod.containers@.len() as int)
}

/// How many of the pod's containers are still running, and how many there
/// are in total. The running count is unknown (`None`) until the pod
/// reports a status block; it is never defaulted to zero.
pub fn pod_status(pod: &PodSnapshot) -> (r: (Option<usize>, usize))
    ensures
        r.1 == pod.containers@.len(),
        match r.0 {
            Some(c) => pod.container_statuses is Some && c == spec_running_count(*pod),
            None => pod.container_statuses is None,
        },
{
    let total = pod.containers.len();
    let running: Option<usize> = match &pod.container_statuses {
        Some(_) => Some(count_running(pod)),
        None => None,
    };
    (running, total)
}

/// Counts the declared containers whose status reports a running state.
fn count_running(pod: &PodSnapshot) -> (c: usize)
    ensures
        c == spec_running_count(*pod),
{
    let n = pod.containers.len();
    let mut count: usize = 0;
    let mut i: usize = 0;
    while i < n
        invariant
            i <= n,
            n == pod.containers@.len(),
            count <= i,
            count == running_prefix_count(*pod, i as int),
        decreases n - i,
    {
        let name = &pod.containers[i];
        let st: Option<&ContainerStatus> = match &pod.container_statuses {
            Some(sts) => lookup_status(sts, name),
            None => None,
        };
        let running_i: bool = match st {
            Some(cs) => match &cs.state {
                Some(ContainerState::Running) => true,
                _ => false,
            },
            None => false,
        };
        proof {
            assert(running_i == container_running(*pod, i as int));
        }
        if running_i {
            count += 1;
        }
        i += 1;
    }
    count
}

/// The pod is done shutting down when its status block is reported and
/// exactly one declared container — assumed to be the main one — still
/// reports a running state.
pub open spec fn spec_is_done(pod: PodSnapshot) -> bool {
    pod.container_statuses is Some && spec_running_count(pod) == 1
}

/// Decides whether the pod counts as done for the shutdown-wait phase:
/// exactly one container still running. This checks only the count, not
/// which container survived.
pub fn is_done(pod: &PodSnapshot) -> (b: bool)
    ensures
        b == spec_is_done(*pod),
{
    let (running, _total) = pod_status(pod);
    match running {
        Some(c) => c == 1,
        None => false,
    }
}

/// The terminal result of the shutdown-wait phase.
#[derive(Clone, Debug)]
pub enum ShutdownOutcome {
    /// Only one container is still running; the snapshot that showed it.
    Done(PodSnapshot),
    /// The watch ended before the pod was done.
    Failed(String),
    /// The grace period elapsed first. Not fatal to the coordinator: the
    /// main workload's own status still decides the exit code.
    TimedOut,
}

/// Advances the shutdown-wait state machine by one timed watch event.
/// `None` means keep watching; `Some` is the phase's terminal outcome.
///
/// A failed observation is logged as progress and never ends the wait; a
/// snapshot ends it exactly when the pod is done; an elapsed deadline times
/// the phase out; an ended watch is a failure.
pub fn shutdown_step(event: StepResult<WatchEvent>) -> (r: Option<ShutdownOutcome>)
    ensures
        match event {
            StepResult::Event(TimedEvent::Item(WatchEvent::Snapshot(s))) => if spec_is_done(s) {
                r == Some(ShutdownOutcome::Done(s))
            } else {
                r is None
            },
            StepResult::Event(TimedEvent::Item(WatchEvent::Error(_))) => r is None,
            StepResult::Event(TimedEvent::DeadlineElapsed) => r == Some(ShutdownOutcome::TimedOut),
            StepResult::Completed => r matches Some(ShutdownOutcome::Failed(m)) && m@
                == "watch ended unexpectedly"@,
            StepResult::Pending => r is None,
        },
{
    match event {
        StepResult::Event(TimedEvent::Item(WatchEvent::Snapshot(s))) => {
            if is_done(&s) {
                Some(ShutdownOutcome::Done(s))
            } else {
                None
            }
        },
        StepResult::Event(TimedEvent::Item(WatchEvent::Error(_))) => None,
        StepResult::Event(TimedEvent::DeadlineElapsed) => Some(ShutdownOutcome::TimedOut),
        StepResult::Completed => Some(
            ShutdownOutcome::Failed("watch ended unexpectedly".to_owned()),
        ),
        StepResult::Pending => None,
    }
}

/// What the caller configured for shutdown notification.
#[derive(Clone, Debug)]
pub struct ShutdownConfig {
    /// URLs to GET, to prompt containers to shut down.
    pub shutdown_http_get: Vec<String>,
    /// URLs to POST to, to prompt containers to shut down.
    pub shutdown_http_post: Vec<String>,
    /// Executable names whose processes get a termination signal.
    pub kill: Vec<String>,
    /// Whether signalling every visible process is enabled as the fallback
    /// when nothing else is configured.
    pub kill_all: bool,
}

/// How one shutdown notification request is sent.
#[derive(Clone, Copy, Debug, PartialEq, Eq, Structural)]
pub enum HttpMethod {
    Get,
    Post,
}

/// One HTTP shutdown notification to dispatch.
#[derive(Clone, Debug)]
pub struct HttpTarget {
    pub method: HttpMethod,
    pub url: String,
}

/// Everything the shutdown notifier is to do: the HTTP requests (all GETs,
/// then all POSTs), the named executables to signal, and whether to fall
/// back to signalling every visible process.
#[derive(Clone, Debug)]
pub struct NotifyPlan {
    pub http: Vec<HttpTarget>,
    pub kill_names: Vec<String>,
    pub kill_everything: bool,
}

/// Computes the notification plan from the configuration. Every configured
/// target is kept; the fall-back of signalling everything is chosen exactly
/// when that capability is enabled and no HTTP target and no process name
/// was configured — the only implicit default.
pub fn notification_plan(cfg: &ShutdownConfig) -> (p: NotifyPlan)
    ensures
        p.http@.len() == cfg.shutdown_http_get@.len() + cfg.shutdown_http_post@.len(),
        forall|i: int|
            0 <= i < cfg.shutdown_http_get@.len() ==> #[trigger] p.http@[i].method is Get
                && p.http@[i].url@ == cfg.shutdown_http_get@[i]@,
        forall|i: int|
            0 <= i < cfg.shutdown_http_post@.len() ==> #[trigger] p.http@[cfg.shutdown_http_get@.len()
                + i].method is Post && p.http@[cfg.shutdown_http_get@.len() + i].url@
                == cfg.shutdown_http_post@[i]@,
        p.kill_names@ =~= cfg.kill@,
        p.kill_everything == (cfg.kill_all && cfg.shutdown_http_get@.len() == 0
            && cfg.shutdown_http_post@.len() == 0 && cfg.kill@.len() == 0),
{
    let mut http: Vec<HttpTarget> = Vec::new();
    let n_get = cfg.shutdown_http_get.len();
    let mut i: usize = 0;
    while i < n_get
        invariant
            i <= n_get,
            n_get == cfg.shutdown_http_get@.len(),
            http@.len() == i,
            forall|j: int|
                0 <= j < i ==> #[trigger] http@[j].method is Get && http@[j].url@
                    == cfg.shutdown_http_get@[j]@,
        decreases n_get - i,
    {
        http.push(HttpTarget { method: HttpMethod::Get, url: cfg.shutdown_http_get[i].clone() });
        i += 1;
    }
    let n_post = cfg.shutdown_http_post.len();
    let mut i: usize = 0;
    while i < n_post
        invariant
            i <= n_post,
            n_post == cfg.shutdown_http_post@.len(),
            n_get == cfg.shutdown_http_get@.len(),
            http@.len() == n_get + i,
            forall|j: int|
                0 <= j < n_get ==> #[trigger] http@[j].method is Get && http@[j].url@
                    == cfg.shutdown_http_get@[j]@,
            forall|j: int|
                0 <= j < i ==> #[trigger] http@[n_get + j].method is Post && http@[n_get + j].url@
                    == cfg.shutdown_http_post@[j]@,
        decreases n_post - i,
    {
        http.push(HttpTarget { method: HttpMethod::Post, url: cfg.shutdown_http_post[i].clone() });
        i += 1;
    }
    let mut kill_names: Vec<String> = Vec::new();
    let n_kill = cfg.kill.len();
    let mut i: usize = 0;
    while i < n_kill
        invariant
            i <= n_kill,
            n_kill == cfg.kill@.len(),
            kill_names@.len() == i,
            forall|j: int| 0 <= j < i ==> #[trigger] kill_names@[j] == cfg.kill@[j],
        decreases n_kill - i,
    {
        kill_names.push(cfg.kill[i].clone());
        i += 1;
    }
    let kill_everything = cfg.kill_all && n_get == 0 && n_post == 0 && n_kill == 0;
    NotifyPlan { http, kill_names, kill_everything }
}

/// One visible OS process: its identifier and its executable's file name.
#[derive(Clone, Debug)]
pub struct ProcessInfo {
    pub pid: u32,
    pub name: String,
}

/// The identifiers of the processes in `procs` whose executable is called
/// `name`, in order.
pub open spec fn matching_pids(procs: Seq<ProcessInfo>, name: Seq<char>) -> Seq<u32>
    decreases procs.len(),
{
    if procs.len() == 0 {
        Seq::empty()
    } else {
        let rest = matching_pids(procs.drop_last(), name);
        if procs.last().name@ == name {
            rest.push(procs.last().pid)
        } else {
            rest
        }
    }
}

/// The identifiers of the processes in `procs` whose executable is *not*
/// called `own_name`, in order.
pub open spec fn other_pids(procs: Seq<ProcessInfo>, own_name: Seq<char>) -> Seq<u32>
    decreases procs.len(),
{
    if procs.len() == 0 {
        Seq::empty()
    } else {
        let rest = other_pids(procs.drop_last(), own_name);
        if procs.last().name@ != own_name {
            rest.push(procs.last().pid)
        } else {
            rest
        }
    }
}

/// Selects, from one snapshot of the visible processes, those running the
/// named executable; these are the processes to signal for one configured
/// name.
pub fn kill_by_name_targets(procs: &Vec<ProcessInfo>, name: &String) -> (r: Vec<u32>)
    ensures
        r@ == matching_pids(procs@, name@),
{
    let mut out: Vec<u32> = Vec::new();
    let n = procs.len();
    let mut i: usize = 0;
    while i < n
        invariant
            i <= n,
            n == procs@.len(),
            out@ == matching_pids(procs@.subrange(0, i as int), name@),
        decreases n - i,
    {
        proof {
            assert(procs@.subrange(0, i + 1).drop_last() =~= procs@.subrange(0, i as int));
            assert(procs@.subrange(0, i + 1).last() == procs@[i as int]);
        }
        if procs[i].name == *name {
            out.push(procs[i].pid);
        }
        i += 1;
    }
    proof {
        assert(procs@.subrange(0, procs@.len() as int) =~= procs@);
    }
    out
}

/// Selects, from one snapshot of the visible processes, every process
/// except those running the coordinator's own executable; these are the
/// processes the signal-everything fallback terminates.
pub fn kill_all_targets(procs: &Vec<ProcessInfo>, own_name: &String) -> (r: Vec<u32>)
    ensures
        r@ == other_pids(procs@, own_name@),
{
    let mut out: Vec<u32> = Vec::new();
    let n = procs.len();
    let mut i: usize = 0;
    while i < n
        invariant
            i <= n,
            n == procs@.len(),
            out@ == other_pids(procs@.subrange(0, i as int), own_name@),
        decreases n - i,
    {
        proof {
            assert(procs@.subrange(0, i + 1).drop_last() =~= procs@.subrange(0, i as int));
            assert(procs@.subrange(0, i + 1).last() == procs@[i as int]);
        }
        if !(procs[i].name == *own_name) {
            out.push(procs[i].pid);
        }
        i += 1;
    }
    proof {
        assert(procs@.subrange(0, procs@.len() as int) =~= procs@);
    }
    out
}

/// The character for one decimal digit.
pub open spec fn digit_char(d: int) -> char {
    if d == 0 {
        '0'
    } else if d == 1 {
        '1'
    } else if d == 2 {
        '2'
    } else if d == 3 {
        '3'
    } else if d == 4 {
        '4'
    } else if d == 5 {
        '5'
    } else if d == 6 {
        '6'
    } else if d == 7 {
        '7'
    } else if d == 8 {
        '8'
    } else {
        '9'
    }
}

/// The decimal rendering of a non-negative number, most significant digit
/// first, with no leading zeroes (except for zero itself).
pub open spec fn spec_dec(n: int) -> Seq<char>
    decreases n,
{
    if n < 10 {
        seq![digit_char(n)]
    } else {
        spec_dec(n / 10).push(digit_char(n % 10))
    }
}

/// One decimal digit as a string slice.
fn digit_str(d: u64) -> (r: &'static str)
    requires
        d < 10,
    ensures
        r@ =~= seq![digit_char(d as int)],
{
    proof {
        reveal_strlit("0");
        reveal_strlit("1");
        reveal_strlit("2");
        reveal_strlit("3");
        reveal_strlit("4");
        reveal_strlit("5");
        reveal_strlit("6");
        reveal_strlit("7");
        reveal_strlit("8");
        reveal_strlit("9");
    }
    match d {
        0 => "0",
        1 => "1",
        2 => "2",
        3 => "3",
        4 => "4",
        5 => "5",
        6 => "6",
        7 => "7",
        8 => "8",
        _ => "9",
    }
}

/// Renders a number in decimal.
pub fn u64_to_dec(n: u64) -> (r: String)
    ensures
        r@ == spec_dec(n as int),
    decreases n,
{
    if n < 10 {
        digit_str(n).to_owned()
    } else {
        let mut s = u64_to_dec(n / 10);
        s.append(digit_str(n % 10));
        s
    }
}

/// What a possibly-unknown count is rendered as: its decimal digits, or
/// `"<unknown>"` — never a made-up zero.
pub open spec fn spec_fmt_or_unknown(n: Option<u64>) -> Seq<char> {
    match n {
        Some(v) => spec_dec(v as int),
        None => "<unknown>"@,
    }
}

/// Renders a possibly-unknown count.
pub fn fmt_or_unknown(n: Option<u64>) -> (r: String)
    ensures
        r@ == spec_fmt_or_unknown(n),
{
    match n {
        Some(v) => u64_to_dec(v),
        None => "<unknown>".to_owned(),
    }
}

/// The progress line for one snapshot of the shutdown-wait phase.
pub open spec fn spec_progress_message(pod: PodSnapshot) -> Seq<char> {
    spec_fmt_or_unknown(
        if pod.container_statuses is Some {
            Some(spec_running_count(pod) as u64)
        } else {
            None
        },
    ) + "/"@ + spec_dec(pod.containers@.len() as int) + " containers are still running."@
}

/// Renders the progress made toward shutting the containers down, as
/// `running/total`, with an unreported running count shown as unknown.
pub fn progress_message(pod: &PodSnapshot) -> (r: String)
    ensures
        r@ == spec_progress_message(*pod),
{
    let (running, total) = pod_status(pod);
    let run_opt: Option<u64> = match running {
        Some(c) => Some(c as u64),
        None => None,
    };
    let mut s = fmt_or_unknown(run_opt);
    s.append("/");
    let t = u64_to_dec(total as u64);
    s.append(t.as_str());
    s.append(" containers are still running.");
    s
}

/// Flattens a nested `Result` into a simple one, converting either error
/// into the caller's error type.
pub fn flatten_result<T, E1, E2, E: From<E1> + From<E2>>(r: Result<Result<T, E1>, E2>) -> (out:
    Result<T, E>)
    ensures
        match r {
            Ok(inner) => match inner {
                Ok(t) => out == Ok::<T, E>(t),
                Err(e) => out matches Err(f) && call_ensures(<E as From<E1>>::from, (e,), f),
            },
            Err(e) => out matches Err(f) && call_ensures(<E as From<E2>>::from, (e,), f),
        },
{
    match r {
        Ok(Ok(t)) => Ok(t),
        Ok(Err(e)) => Err(E::from(e)),
        Err(e) => Err(E::from(e)),
    }
}

} // verus!
