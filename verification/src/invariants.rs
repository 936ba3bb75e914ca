//! What the scheduler keeps true of the entities it hands out.
//!
//! Reading does not depend on any of it: an answer that breaks one of these
//! rules is read as it is. A caller that relies on a rule can check it.

use vstd::prelude::*;
use vstd::string::*;
use crate::jobs::{
    Allocation, AllocationView, Job, JobView, Metrics, MetricsView, RunningStatus, TaskGroup,
    TaskGroupView,
};
use crate::wire::str_eq;

verus! {

/// Whether `c` is a digit of base sixteen, in either case.
pub open spec fn hex_digit(c: char) -> bool {
    ||| '0' <= c <= '9'
    ||| 'a' <= c <= 'f'
    ||| 'A' <= c <= 'F'
}

/// Whether `id` has the form of a full identifier: thirty-six characters, of
/// which the ninth, fourteenth, nineteenth and twenty-fourth are hyphens and
/// all others digits of base sixteen. The short form of an identifier, its
/// first eight characters, is not full.
pub open spec fn full_identifier(id: Seq<char>) -> bool {
    &&& id.len() == 36
    &&& forall|i: int|
        0 <= i < 36 ==> if i == 8 || i == 13 || i == 18 || i == 23 {
            #[trigger] id[i] == '-'
        } else {
            hex_digit(id[i])
        }
}

/// Whether `id` has the form of a full identifier.
pub fn is_full_identifier(id: &str) -> (r: bool)
    ensures
        r == full_identifier(id@),
{
    if id.unicode_len() != 36 {
        return false;
    }
    let mut i: usize = 0;
    while i < 36
        invariant
            i <= 36,
            id@.len() == 36,
            forall|k: int|
                0 <= k < i ==> if k == 8 || k == 13 || k == 18 || k == 23 {
                    #[trigger] id@[k] == '-'
                } else {
                    hex_digit(id@[k])
                },
        decreases 36 - i,
    {
        let c = id.get_char(i);
        let fits = if i == 8 || i == 13 || i == 18 || i == 23 {
            c == '-'
        } else {
            ('0' <= c && c <= '9') || ('a' <= c && c <= 'f') || ('A' <= c && c <= 'F')
        };
        if !fits {
            return false;
        }
        i += 1;
    }
    true
}

impl TaskGroupView {
    /// A task group is scaled to no less than nothing.
    pub open spec fn valid(self) -> bool {
        self.count >= 0
    }
}

impl TaskGroup {
    /// Whether the group is scaled to no less than nothing.
    pub fn is_valid(&self) -> (r: bool)
        ensures
            r == self.deep_view().valid(),
    {
        self.count >= 0
    }
}

impl TaskGroupView {
    /// Whether the group has a task to run.
    pub open spec fn staffed(self) -> bool {
        self.tasks matches Some(tasks) && tasks.len() > 0
    }
}

impl TaskGroup {
    /// Whether the group has a task to run.
    pub fn is_staffed(&self) -> (r: bool)
        ensures
            r == self.deep_view().staffed(),
    {
        match &self.tasks {
            Some(tasks) => tasks.len() > 0,
            None => false,
        }
    }
}

impl JobView {
    /// Whether the job is active: it is not stopped, and it is pending or
    /// running.
    pub open spec fn active(self) -> bool {
        !self.stop && (self.status == RunningStatus::Pending || self.status
            == RunningStatus::Running)
    }

    /// Every task group of a job is scaled to no less than nothing and, where
    /// the job is active, has a task to run.
    pub open spec fn valid(self) -> bool {
        self.task_groups matches Some(groups) ==> forall|i: int|
            0 <= i < groups.len() ==> (#[trigger] groups[i]).valid() && (self.active()
                ==> groups[i].staffed())
    }
}

impl Job {
    /// Whether the job is active.
    pub fn is_active(&self) -> (r: bool)
        ensures
            r == self.deep_view().active(),
    {
        !self.stop && (self.status == RunningStatus::Pending || self.status
            == RunningStatus::Running)
    }

    /// Whether every task group of the job is scaled to no less than nothing
    /// and, where the job is active, has a task to run.
    pub fn is_valid(&self) -> (r: bool)
        ensures
            r == self.deep_view().valid(),
    {
        let active = self.is_active();
        match &self.task_groups {
            None => true,
            Some(groups) => {
                let mut i: usize = 0;
                while i < groups.len()
                    invariant
                        i <= groups.len(),
                        active == self.deep_view().active(),
                        self.deep_view().task_groups == Some(groups.deep_view()),
                        forall|k: int|
                            0 <= k < i ==> (#[trigger] groups.deep_view()[k]).valid() && (active
                                ==> groups.deep_view()[k].staffed()),
                    decreases groups.len() - i,
                {
                    if !groups[i].is_valid() || (active && !groups[i].is_staffed()) {
                        proof {
                            let all = self.deep_view().task_groups->Some_0;
                            let g = all[i as int];
                            assert(g == groups@[i as int].deep_view());
                            assert(!(g.valid() && (active ==> g.staffed())));
                        }
                        return false;
                    }
                    i += 1;
                }
                true
            },
        }
    }
}

/// Whether two jobs go by one identifier in one namespace.
pub open spec fn same_identity(a: JobView, b: JobView) -> bool {
    a.id == b.id && a.namespace == b.namespace
}

/// No two jobs of a list go by one identifier in one namespace.
pub open spec fn unique_identifiers(jobs: Seq<JobView>) -> bool {
    forall|i: int, j: int|
        0 <= i < j < jobs.len() ==> !same_identity(#[trigger] jobs[i], #[trigger] jobs[j])
}

/// Whether two jobs go by one identifier in one namespace.
pub fn have_same_identity(a: &Job, b: &Job) -> (r: bool)
    ensures
        r == same_identity(a.deep_view(), b.deep_view()),
{
    if !str_eq(a.id.as_str(), b.id.as_str()) {
        return false;
    }
    match (&a.namespace, &b.namespace) {
        (Some(x), Some(y)) => str_eq(x.as_str(), y.as_str()),
        (None, None) => true,
        _ => false,
    }
}

/// Whether no two jobs of the list go by one identifier in one namespace.
pub fn have_unique_identifiers(jobs: &Vec<Job>) -> (r: bool)
    ensures
        r == unique_identifiers(jobs.deep_view()),
{
    let ghost views = jobs.deep_view();
    let mut j: usize = 0;
    while j < jobs.len()
        invariant
            j <= jobs.len(),
            views == jobs.deep_view(),
            forall|a: int, b: int|
                0 <= a < b < j ==> !same_identity(#[trigger] views[a], #[trigger] views[b]),
        decreases jobs.len() - j,
    {
        let mut i: usize = 0;
        while i < j
            invariant
                i <= j,
                j < jobs.len(),
                views == jobs.deep_view(),
                forall|a: int| 0 <= a < i ==> !same_identity(#[trigger] views[a], views[j as int]),
            decreases j - i,
        {
            if have_same_identity(&jobs[i], &jobs[j]) {
                proof {
                    assert(same_identity(views[i as int], views[j as int]));
                }
                return false;
            }
            i += 1;
        }
        j += 1;
    }
    true
}

impl MetricsView {
    /// No count of nodes, and no count of failures, is negative.
    pub open spec fn valid(self) -> bool {
        &&& self.nodes_evaluated >= 0
        &&& self.nodes_filtered >= 0
        &&& self.nodes_exhausted >= 0
        &&& self.coalesced_failures >= 0
    }
}

impl Metrics {
    /// Whether no count of these metrics is negative.
    pub fn is_valid(&self) -> (r: bool)
        ensures
            r == self.deep_view().valid(),
    {
        self.nodes_evaluated >= 0 && self.nodes_filtered >= 0 && self.nodes_exhausted >= 0
            && self.coalesced_failures >= 0
    }
}

impl AllocationView {
    /// An allocation goes by a full identifier, and its metrics count
    /// nothing below zero.
    pub open spec fn valid(self) -> bool {
        &&& full_identifier(self.id)
        &&& self.metrics.valid()
    }
}

impl Allocation {
    /// Whether this allocation goes by a full identifier and its metrics
    /// count nothing below zero.
    pub fn is_valid(&self) -> (r: bool)
        ensures
            r == self.deep_view().valid(),
    {
        is_full_identifier(self.id.as_str()) && self.metrics.is_valid()
    }
}

} // verus!
