//! The pod data model: a pod's name, its containers and the per-container
//! status, plus the summary shown in the pod table's status column.

use vstd::prelude::*;

use crate::filterable_list::ListItem;

verus! {

/// A container of a pod, with the (first) port it exposes.
pub struct PodContainer {
    pub name: String,
    pub port: u16,
}

impl Clone for PodContainer {
    fn clone(&self) -> (r: Self)
        ensures
            r == *self,
    {
        PodContainer { name: self.name.clone(), port: self.port }
    }
}

impl ListItem for PodContainer {
    open spec fn key_spec(&self) -> Seq<char> {
        self.name@
    }

    fn key(&self) -> (k: &str) {
        self.name.as_str()
    }
}

/// A recognised container state.
pub enum KnownPodStatus {
    Terminated {
        container_id: String,
        exit_code: usize,
        finished_at: String,
        reason: String,
        started_at: String,
    },
    Waiting { reason: String, message: Option<String> },
    Running { started_at: String },
}

/// A container state as reported by the data source: either one of the
/// recognised states or the raw text of an unrecognised one.
pub enum PodStatus {
    Known(KnownPodStatus),
    Unknown(String),
}

/// A running workload unit: its name, the reported state of each container,
/// and the containers available for port-forwarding.
pub struct Pod {
    pub name: String,
    pub container_statuses: Vec<PodStatus>,
    pub containers: Vec<PodContainer>,
}

impl ListItem for Pod {
    open spec fn key_spec(&self) -> Seq<char> {
        self.name@
    }

    fn key(&self) -> (k: &str) {
        self.name.as_str()
    }
}

/// Copies of a pod's containers, for handing to the port-forward picker.
pub fn clone_containers(containers: &Vec<PodContainer>) -> (r: Vec<PodContainer>)
    ensures
        r@ == containers@,
{
    let n: usize = containers.len();
    let mut r: Vec<PodContainer> = Vec::new();
    let mut i: usize = 0;
    while i < n
        invariant
            n == containers@.len(),
            i <= n,
            r@ =~= containers@.take(i as int),
        decreases n - i,
    {
        r.push(containers[i].clone());
        i += 1;
    }
    proof {
        assert(containers@.take(n as int) =~= containers@);
    }
    r
}

/// The mark shown for one container state.
#[derive(Clone, Copy, Debug, PartialEq, Eq, Structural)]
pub enum StatusIcon {
    Running,
    Terminated,
    Waiting,
    Unknown,
}

/// The status column of one pod row: one mark per container when there are
/// few, otherwise just how many of them are running.
#[derive(Debug)]
pub enum StatusSummary {
    Icons(Vec<StatusIcon>),
    Ratio { running: usize, total: usize },
}

/// The mark for one container state.
pub open spec fn icon_of(s: PodStatus) -> StatusIcon {
    match s {
        PodStatus::Known(k) => match k {
            KnownPodStatus::Running { .. } => StatusIcon::Running,
            KnownPodStatus::Terminated { .. } => StatusIcon::Terminated,
            KnownPodStatus::Waiting { .. } => StatusIcon::Waiting,
        },
        PodStatus::Unknown(_) => StatusIcon::Unknown,
    }
}

/// How many of the states are `Running`.
pub open spec fn count_running(statuses: Seq<PodStatus>) -> nat
    decreases statuses.len(),
{
    if statuses.len() == 0 {
        0
    } else {
        count_running(statuses.drop_last()) + (if icon_of(statuses.last())
            == StatusIcon::Running {
            1nat
        } else {
            0nat
        })
    }
}

/// The mark for one container state, executable form.
fn icon_of_exec(s: &PodStatus) -> (r: StatusIcon)
    ensures
        r == icon_of(*s),
{
    match s {
        PodStatus::Known(k) => match k {
            KnownPodStatus::Running { .. } => StatusIcon::Running,
            KnownPodStatus::Terminated { .. } => StatusIcon::Terminated,
            KnownPodStatus::Waiting { .. } => StatusIcon::Waiting,
        },
        PodStatus::Unknown(_) => StatusIcon::Unknown,
    }
}

/// The status column for one pod: with five or fewer containers one mark
/// per container, otherwise the running/total ratio.
pub fn get_status(statuses: &Vec<PodStatus>) -> (r: StatusSummary)
    ensures
        statuses@.len() <= 5 ==> (match r {
            StatusSummary::Icons(icons) => icons@ == statuses@.map(|i: int, s: PodStatus| icon_of(s)),
            StatusSummary::Ratio { .. } => false,
        }),
        statuses@.len() > 5 ==> (match r {
            StatusSummary::Icons(..) => false,
            StatusSummary::Ratio { running, total } => running == count_running(statuses@) && total
                == statuses@.len(),
        }),
{
    let n: usize = statuses.len();
    if n <= 5 {
        let mut icons: Vec<StatusIcon> = Vec::new();
        let mut i: usize = 0;
        while i < n
            invariant
                n == statuses@.len(),
                i <= n,
                icons@ =~= statuses@.take(i as int).map(|k: int, s: PodStatus| icon_of(s)),
            decreases n - i,
        {
            icons.push(icon_of_exec(&statuses[i]));
            proof {
                assert(statuses@.take(i + 1).map(|k: int, s: PodStatus| icon_of(s)) =~= statuses@.take(
                    i as int,
                ).map(|k: int, s: PodStatus| icon_of(s)).push(icon_of(statuses@[i as int])));
            }
            i += 1;
        }
        proof {
            assert(statuses@.take(n as int) =~= statuses@);
        }
        StatusSummary::Icons(icons)
    } else {
        let mut running: usize = 0;
        let mut i: usize = 0;
        while i < n
            invariant
                n == statuses@.len(),
                i <= n,
                running == count_running(statuses@.take(i as int)),
                running <= i,
            decreases n - i,
        {
            let is_running = match &statuses[i] {
                PodStatus::Known(KnownPodStatus::Running { .. }) => true,
                _ => false,
            };
            if is_running {
                running += 1;
            }
            proof {
                assert(statuses@.take(i + 1).drop_last() =~= statuses@.take(i as int));
                assert(statuses@.take(i + 1).last() == statuses@[i as int]);
            }
            i += 1;
        }
        proof {
            assert(statuses@.take(n as int) =~= statuses@);
        }
        StatusSummary::Ratio { running, total: n }
    }
}

} // verus!
