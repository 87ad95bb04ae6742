//! The pod snapshot model: one immutable observation of the pod this
//! coordinator runs in. Containers are identified by name, unique within a
//! snapshot; a status that has not been reported yet is absent and is never
//! defaulted to ready or running.

use vstd::prelude::*;

verus! {

/// The lifecycle state a container's runtime status reports.
#[derive(Clone, Copy, Debug, PartialEq, Eq, Structural)]
pub enum ContainerState {
    Waiting,
    Running,
    Terminated { exit_code: i32 },
}

/// The runtime status reported for one container.
#[derive(Clone, Debug)]
pub struct ContainerStatus {
    /// Name of the container this status belongs to.
    pub name: String,
    /// Whether the container signals readiness.
    pub ready: bool,
    /// Whether the container's start-up has completed, when reported.
    pub started: Option<bool>,
    /// The reported lifecycle state, if any.
    pub state: Option<ContainerState>,
}

/// One observation of the pod. The first declared container is the main
/// container; every other declared container is a sidecar.
#[derive(Clone, Debug)]
pub struct PodSnapshot {
    /// Names of the declared containers, in declaration order.
    pub containers: Vec<String>,
    /// The reported container statuses, or `None` when the pod has not
    /// reported any status block yet.
    pub container_statuses: Option<Vec<ContainerStatus>>,
    /// The pod-level restart policy, e.g. `"Never"`, if set.
    pub restart_policy: Option<String>,
    /// The configured termination grace period, if set.
    pub termination_grace_period_seconds: Option<i64>,
}

/// The first status in `sts` whose name is `name`, if any.
pub open spec fn find_status(sts: Seq<ContainerStatus>, name: Seq<char>) -> Option<ContainerStatus>
    decreases sts.len(),
{
    if sts.len() == 0 {
        None
    } else if sts[0].name@ == name {
        Some(sts[0])
    } else {
        find_status(sts.subrange(1, sts.len() as int), name)
    }
}

impl PodSnapshot {
    /// The reported statuses, with an absent status block read as empty.
    pub open spec fn statuses_seq(self) -> Seq<ContainerStatus> {
        match self.container_statuses {
            Some(sts) => sts@,
            None => Seq::empty(),
        }
    }

    /// The status reported for the container called `name`, if any.
    pub open spec fn status_of(self, name: Seq<char>) -> Option<ContainerStatus> {
        find_status(self.statuses_seq(), name)
    }

    /// Container identity is by name: names are unique among the declared
    /// containers and among the reported statuses.
    pub open spec fn wf(self) -> bool {
        &&& forall|i: int, j: int|
            0 <= i < j < self.containers@.len() ==> self.containers@[i]@ != self.containers@[j]@
        &&& forall|i: int, j: int|
            0 <= i < j < self.statuses_seq().len()
                ==> self.statuses_seq()[i].name@ != self.statuses_seq()[j].name@
    }

    /// Decides whether this snapshot satisfies the name-uniqueness
    /// invariant, so that unverified callers can check it before handing a
    /// snapshot to the rest of the library.
    pub fn is_wf(&self) -> (b: bool)
        ensures
            b == self.wf(),
    {
        let names_unique = unique_names(&self.containers);
        let statuses_unique = match &self.container_statuses {
            Some(sts) => unique_status_names(sts),
            None => true,
        };
        names_unique && statuses_unique
    }
}

/// Decides whether all names in `names` are distinct.
fn unique_names(names: &Vec<String>) -> (b: bool)
    ensures
        b == (forall|i: int, j: int|
            0 <= i < j < names@.len() ==> names@[i]@ != names@[j]@),
{
    let n = names.len();
    let mut i: usize = 0;
    while i < n
        invariant
            i <= n,
            n == names@.len(),
            forall|p: int, q: int| 0 <= p < q < names@.len() && p < i ==> names@[p]@ != names@[q]@,
        decreases n - i,
    {
        let mut j: usize = i + 1;
        while j < n
            invariant
                i < j <= n,
                n == names@.len(),
                forall|q: int| i < q < j ==> names@[i as int]@ != names@[q]@,
            decreases n - j,
        {
            if names[i] == names[j] {
                return false;
            }
            j += 1;
        }
        i += 1;
    }
    true
}

/// Decides whether all status names in `sts` are distinct.
fn unique_status_names(sts: &Vec<ContainerStatus>) -> (b: bool)
    ensures
        b == (forall|i: int, j: int|
            0 <= i < j < sts@.len() ==> sts@[i].name@ != sts@[j].name@),
{
    let n = sts.len();
    let mut i: usize = 0;
    while i < n
        invariant
            i <= n,
            n == sts@.len(),
            forall|p: int, q: int| 0 <= p < q < sts@.len() && p < i ==> sts@[p].name@ != sts@[q].name@,
        decreases n - i,
    {
        let mut j: usize = i + 1;
        while j < n
            invariant
                i < j <= n,
                n == sts@.len(),
                forall|q: int| i < q < j ==> sts@[i as int].name@ != sts@[q].name@,
            decreases n - j,
        {
            if sts[i].name == sts[j].name {
                return false;
            }
            j += 1;
        }
        i += 1;
    }
    true
}

/// Looks up the first status in `sts` reported under `name`.
pub fn lookup_status<'a>(sts: &'a Vec<ContainerStatus>, name: &String) -> (r: Option<
    &'a ContainerStatus,
>)
    ensures
        match r {
            Some(st) => find_status(sts@, name@) == Some(*st),
            None => find_status(sts@, name@) is None,
        },
{
    let n = sts.len();
    let mut i: usize = 0;
    proof {
        assert(sts@.subrange(0, sts@.len() as int) =~= sts@);
    }
    while i < n
        invariant
            i <= n,
            n == sts@.len(),
            find_status(sts@, name@) == find_status(
                sts@.subrange(i as int, sts@.len() as int),
                name@,
            ),
        decreases n - i,
    {
        if sts[i].name == *name {
            proof {
                assert(sts@.subrange(i as int, sts@.len() as int)[0] == sts@[i as int]);
            }
            return Some(&sts[i]);
        }
        proof {
            assert(sts@.subrange(i as int, sts@.len() as int).subrange(
                1,
                sts@.subrange(i as int, sts@.len() as int).len() as int,
            ) =~= sts@.subrange(i as int + 1, sts@.len() as int));
        }
        i += 1;
    }
    None
}

} // verus!
