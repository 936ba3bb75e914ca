use nomad_api::invariants::{have_same_identity, have_unique_identifiers, is_full_identifier};
use nomad_api::jobs::{Allocation, Job, Metrics, RunningStatus, Task, TaskGroup};

#[test]
fn a_full_identifier_has_thirty_six_characters_in_five_groups() {
    assert!(is_full_identifier("30cd7ef8-cd5c-e950-2ce5-e512fdcdd551"));
    assert!(is_full_identifier("30CD7EF8-CD5C-E950-2CE5-E512FDCDD551"));
    assert!(is_full_identifier("00000000-0000-0000-0000-000000000000"));
    // The short form.
    assert!(!is_full_identifier("30cd7ef8"));
    assert!(!is_full_identifier(""));
    assert!(!is_full_identifier("not-a-uuid"));
    // One character short, one too many.
    assert!(!is_full_identifier("30cd7ef8-cd5c-e950-2ce5-e512fdcdd55"));
    assert!(!is_full_identifier("30cd7ef8-cd5c-e950-2ce5-e512fdcdd5510"));
    // A hyphen out of place, a digit in the place of one.
    assert!(!is_full_identifier("30cd7ef-8cd5c-e950-2ce5-e512fdcdd551"));
    assert!(!is_full_identifier("30cd7ef80cd5c-e950-2ce5-e512fdcdd551"));
    assert!(!is_full_identifier("30cd7ef8-cd5c-e950-2ce5ae512fdcdd551"));
    // A letter that is no digit of base sixteen.
    assert!(!is_full_identifier("30cd7ef8-cd5c-e950-2ce5-e512fdcdd55g"));
    assert!(!is_full_identifier("g0cd7ef8-cd5c-e950-2ce5-e512fdcdd551"));
    // Thirty-six characters, not thirty-six bytes.
    assert!(!is_full_identifier("30cd7ef8-cd5c-e950-2ce5-e512fdcdd5é"));
    assert!(!is_full_identifier("é0cd7ef8-cd5c-e950-2ce5-e512fdcdd551"));
}

#[test]
fn a_task_group_is_scaled_to_no_less_than_nothing() {
    let mut group = TaskGroup::default();
    assert!(group.is_valid());
    group.count = 3;
    assert!(group.is_valid());
    group.count = -1;
    assert!(!group.is_valid());
}

#[test]
fn metrics_count_nothing_below_zero() {
    let mut metrics = Metrics::default();
    assert!(metrics.is_valid());
    metrics.nodes_evaluated = 4;
    metrics.nodes_filtered = 1;
    assert!(metrics.is_valid());
    metrics.nodes_exhausted = -1;
    assert!(!metrics.is_valid());
    metrics.nodes_exhausted = 0;
    metrics.coalesced_failures = -2;
    assert!(!metrics.is_valid());
    metrics.coalesced_failures = 0;
    metrics.nodes_filtered = -1;
    assert!(!metrics.is_valid());
    metrics.nodes_filtered = 0;
    metrics.nodes_evaluated = -1;
    assert!(!metrics.is_valid());
}

#[test]
fn an_allocation_goes_by_a_full_identifier() {
    let mut allocation = Allocation::default();
    assert!(!allocation.is_valid());
    allocation.id = "30cd7ef8-cd5c-e950-2ce5-e512fdcdd551".to_string();
    assert!(allocation.is_valid());
    allocation.metrics.nodes_exhausted = -1;
    assert!(!allocation.is_valid());
    allocation.metrics.nodes_exhausted = 0;
    allocation.id = "30cd7ef8".to_string();
    assert!(!allocation.is_valid());
}

fn job(id: &str, namespace: Option<&str>) -> Job {
    let mut job = Job::default();
    job.id = id.to_string();
    job.namespace = namespace.map(|n| n.to_string());
    job
}

#[test]
fn an_active_job_has_a_task_in_every_group() {
    let mut staffed = TaskGroup::default();
    staffed.tasks = Some(vec![Task::default()]);
    assert!(staffed.is_staffed());
    let mut empty = TaskGroup::default();
    assert!(!empty.is_staffed());
    empty.tasks = Some(vec![]);
    assert!(!empty.is_staffed());

    let mut job = Job::default();
    assert!(job.is_active());
    assert!(job.is_valid());
    job.task_groups = Some(vec![]);
    assert!(job.is_valid());
    job.task_groups = Some(vec![staffed.clone(), staffed.clone()]);
    assert!(job.is_valid());
    job.task_groups = Some(vec![staffed.clone(), empty.clone()]);
    assert!(!job.is_valid());
    // A job that is not active may have a group without tasks.
    job.stop = true;
    assert!(!job.is_active());
    assert!(job.is_valid());
    job.stop = false;
    job.status = RunningStatus::Dead;
    assert!(!job.is_active());
    assert!(job.is_valid());
    job.status = RunningStatus::Running;
    assert!(job.is_active());
    assert!(!job.is_valid());
    job.status = RunningStatus::Missing;
    assert!(!job.is_active());
    // A group scaled below nothing is never in order.
    let mut negative = staffed.clone();
    negative.count = -1;
    job.task_groups = Some(vec![staffed, negative]);
    assert!(!job.is_valid());
    job.status = RunningStatus::Running;
    assert!(!job.is_valid());
}

#[test]
fn jobs_go_by_one_identifier_each_within_a_namespace() {
    assert!(have_same_identity(&job("x", None), &job("x", None)));
    assert!(have_same_identity(&job("x", Some("default")), &job("x", Some("default"))));
    assert!(!have_same_identity(&job("x", Some("default")), &job("x", Some("other"))));
    assert!(!have_same_identity(&job("x", Some("default")), &job("x", None)));
    assert!(!have_same_identity(&job("x", None), &job("y", None)));

    assert!(have_unique_identifiers(&vec![]));
    assert!(have_unique_identifiers(&vec![job("x", None)]));
    assert!(have_unique_identifiers(&vec![job("x", None), job("y", None), job("z", None)]));
    assert!(have_unique_identifiers(&vec![
        job("x", Some("a")),
        job("x", Some("b")),
        job("x", None)
    ]));
    assert!(!have_unique_identifiers(&vec![job("x", None), job("y", None), job("x", None)]));
    assert!(!have_unique_identifiers(&vec![job("y", None), job("x", Some("a")), job("x", Some("a"))]));
    assert!(!have_unique_identifiers(&vec![job("x", Some("a")), job("x", Some("a")), job("z", None)]));
}
