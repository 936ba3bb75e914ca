use nomad_api::client::NomadClient;
use nomad_api::jobs::{Allocation, Metrics, RunningStatus, ScoreMetaDaum};
use nomad_api::json::Number;
use nomad_api::text::{decode_text, encode_text, render};
use nomad_api::wire::{DecodeError, Wire};

fn s(x: &str) -> String {
    x.to_string()
}

const JOB: &str = r#"{"ID":"example","Name":"example","Type":"service","Status":"running","Priority":50,"Stop":false,"CreateIndex":5,"ModifyIndex":7,"JobModifyIndex":5,"Region":"global","Datacenters":["dc1"],"Version":0,"SubmitTime":1495747371794276400}"#;

const EVENT: &str = r#"{"Details":{"image":"redis:7"},"DiskLimit":0,"DisplayMessage":"Task started by client","DownloadError":"","DriverError":"","DriverMessage":"","ExitCode":0,"FailedSibling":"","FailsTask":false,"GenericSource":"","KillError":"","KillReason":"","KillTimeout":0,"Message":"","RestartReason":"","SetupError":"","Signal":0,"StartDelay":0,"TaskSignal":"","TaskSignalReason":"","Time":1495747371795703800,"Type":"Started","ValidationError":"","VaultError":""}"#;

const METRICS: &str = r#"{"AllocationTime":33306,"ClassExhausted":null,"ClassFiltered":null,"CoalescedFailures":0,"ConstraintFiltered":null,"DimensionExhausted":null,"NodesAvailable":{"dc1":1},"NodesEvaluated":1,"NodesExhausted":0,"NodesFiltered":0,"QuotaExhausted":null,"ResourcesExhausted":null,"ScoreMetaData":[{"NodeID":"cb1f6030-a220-4f92-57dc-7baaabdc3823","NormScore":0.11793252368742123,"Scores":{"binpack":0.11793252368742123,"job-anti-affinity":0,"node-affinity":0,"node-reschedule-penalty":-1}}],"Scores":{"cb1f6030-a220-4f92-57dc-7baaabdc3823.binpack":0.11793252368742123}}"#;

fn allocation_text(client_status: &str) -> String {
    format!(
        r#"{{"AllocModifyIndex":9,"AllocatedResources":{{"Shared":{{"DiskMB":300,"Networks":[],"Ports":[]}},"Tasks":{{"redis":{{"Cpu":{{"CpuShares":500,"ReservedCores":null}},"Devices":null,"Memory":{{"MemoryMB":256,"MemoryMaxMB":0}},"Networks":null}}}}}},"ClientDescription":"","ClientStatus":"{}","CreateIndex":9,"CreateTime":1495747371794276400,"DeploymentID":null,"DeploymentStatus":{{"Canary":false,"Healthy":true,"ModifyIndex":12,"Timestamp":"2017-05-25T21:22:51Z"}},"DesiredStatus":"run","EvalID":"5456bd7a-9fc0-c0dd-6131-cbee77f57577","ID":"30cd7ef8-cd5c-e950-2ce5-e512fdcdd551","Job":{},"JobID":"example","Metrics":{},"ModifyIndex":9,"ModifyTime":1495747371794276400,"Name":"example.cache[0]","Namespace":"default","NetworkStatus":{{"Address":"10.0.2.15","DNS":null,"InterfaceName":"eth0"}},"NodeID":"cb1f6030-a220-4f92-57dc-7baaabdc3823","NodeName":"worker-1","Resources":{{"CPU":500,"Cores":0,"DiskMB":300,"IOPS":0,"MemoryMB":256,"Networks":null}},"SharedResources":{{"CPU":0,"Cores":0,"DiskMB":300,"IOPS":0,"MemoryMB":0,"Networks":null}},"TaskGroup":"cache","TaskResources":{{"redis":{{"CPU":500,"Cores":0,"MemoryMB":256}}}},"TaskStates":{{"redis":{{"Events":[{}],"Failed":false,"FinishedAt":null,"LastRestart":null,"Restarts":0,"StartedAt":"2017-05-25T21:22:51.795703800Z","State":"running","TaskHandle":null}}}}}}"#,
        client_status, JOB, METRICS, EVENT
    )
}

#[test]
fn an_allocation_is_read_with_all_it_holds() {
    let allocation = NomadClient::read_allocation_response(&allocation_text("running")).unwrap();
    assert_eq!(allocation.id, "30cd7ef8-cd5c-e950-2ce5-e512fdcdd551");
    assert_eq!(allocation.id.len(), 36);
    assert_eq!(allocation.client_status, RunningStatus::Running);
    assert_eq!(allocation.desired_status, "run");
    assert_eq!(allocation.eval_id, Some(s("5456bd7a-9fc0-c0dd-6131-cbee77f57577")));
    assert_eq!(allocation.deployment_id, None);
    assert_eq!(allocation.deployment_status.as_ref().unwrap().healthy, true);
    assert_eq!(allocation.node_name, "worker-1");
    assert_eq!(allocation.task_group, "cache");
    assert_eq!(allocation.create_time, 1495747371794276400);
    // The job is a snapshot, held by value.
    assert_eq!(allocation.job.id, "example");
    assert_eq!(allocation.job.status, RunningStatus::Running);
    assert_eq!(allocation.job.task_groups, None);
    // What was granted.
    assert_eq!(allocation.allocated_resources.shared.disk_mb, Some(300));
    assert_eq!(allocation.allocated_resources.task_lifecycles, vec![]);
    let granted = &allocation.allocated_resources.tasks;
    assert_eq!(granted.len(), 1);
    assert_eq!(granted[0].0, "redis");
    assert_eq!(granted[0].1.cpu.cpu_shares, 500);
    assert_eq!(granted[0].1.memory.as_ref().unwrap().memory_mb, 256);
    assert_eq!(granted[0].1.disk_mb, None);
    assert_eq!(allocation.resources.cpu, 500);
    assert_eq!(allocation.resources.memory_max_mb, None);
    assert_eq!(allocation.shared_resources.disk_mb, Some(300));
    assert_eq!(allocation.task_resources[0].0, "redis");
    assert_eq!(allocation.task_resources[0].1.disk_mb, None);
    assert_eq!(allocation.network_status.as_ref().unwrap().address, "10.0.2.15");
    // The states of the tasks, by task name, with their events in order.
    assert_eq!(allocation.task_states.len(), 1);
    let (name, state) = &allocation.task_states[0];
    assert_eq!(name, "redis");
    assert_eq!(state.state, RunningStatus::Running);
    assert_eq!(state.failed, Some(false));
    assert_eq!(state.finished_at, None);
    let events = state.events.as_ref().unwrap();
    assert_eq!(events.len(), 1);
    assert_eq!(events[0].type_field, "Started");
    assert_eq!(events[0].display_message, "Task started by client");
    assert_eq!(events[0].time, 1495747371795703800);
    assert_eq!(events[0].details.image, Some(s("redis:7")));
    assert_eq!(events[0].details.message, None);
}

#[test]
fn placement_scores_are_kept_as_written() {
    let metrics: Metrics = decode_text(METRICS).unwrap();
    assert_eq!(metrics.allocation_time, 33306);
    assert_eq!(metrics.nodes_evaluated, 1);
    assert_eq!(metrics.nodes_available.as_ref().unwrap().dc1, 1);
    assert_eq!(metrics.dimension_exhausted, None);
    let scored: &ScoreMetaDaum = &metrics.score_meta_data.as_ref().unwrap()[0];
    assert_eq!(scored.node_id, "cb1f6030-a220-4f92-57dc-7baaabdc3823");
    assert_eq!(scored.norm_score, Number::Float(s("0.11793252368742123")));
    assert_eq!(scored.scores.binpack, Number::Float(s("0.11793252368742123")));
    assert_eq!(scored.scores.job_anti_affinity, Number::Int(0));
    assert_eq!(scored.scores.node_reschedule_penalty, Number::Int(-1));
    assert_eq!(
        render(metrics.scores.as_ref().unwrap()).unwrap(),
        r#"{"cb1f6030-a220-4f92-57dc-7baaabdc3823.binpack":0.11793252368742123}"#
    );
    assert_eq!(encode_text(&metrics).unwrap(), METRICS);
}

#[test]
fn a_fraction_is_kept_by_its_value() {
    // The text held for a fraction is the shortest that gives the number back.
    assert_eq!(decode_text::<Number>("1.50"), Ok(Number::Float(s("1.5"))));
    assert_eq!(decode_text::<Number>("1e2"), Ok(Number::Float(s("100.0"))));
    assert_eq!(decode_text::<Number>("-0"), Ok(Number::Float(s("-0.0"))));
    assert_eq!(decode_text::<Number>("0.1"), Ok(Number::Float(s("0.1"))));
    assert_eq!(
        decode_text::<Number>("123456789012345678901234567890"),
        Ok(Number::Float(s("1.2345678901234568e+29")))
    );
    assert_eq!(render(&Number::Float(s("1.50")).encode()).unwrap(), "1.5");
    assert_eq!(render(&Number::Float(s("12")).encode()).unwrap(), "12");
    assert_eq!(render(&Number::Float(s(" 2.5 ")).encode()).unwrap(), "2.5");
}

#[test]
fn an_allocation_of_any_status_word_is_read() {
    for (word, status) in [
        ("", RunningStatus::Missing),
        ("unknown", RunningStatus::Missing),
        ("pending", RunningStatus::Pending),
        ("complete", RunningStatus::Complete),
        ("failed", RunningStatus::Failed),
        ("lost", RunningStatus::Lost),
    ] {
        let allocation: Allocation = decode_text(&allocation_text(word)).unwrap();
        assert_eq!(allocation.client_status, status, "{:?}", word);
    }
}

#[test]
fn an_allocation_without_task_states_is_read() {
    let text = allocation_text("pending");
    let cut = text.find(r#","TaskResources""#).unwrap();
    let text = format!("{}}}", &text[..cut]);
    let allocation: Allocation = decode_text(&text).unwrap();
    assert_eq!(allocation.task_states, vec![]);
    assert_eq!(allocation.task_resources, vec![]);
}

#[test]
fn an_allocation_is_read_back_from_what_it_is_written_as() {
    let allocation: Allocation = decode_text(&allocation_text("running")).unwrap();
    let tree = allocation.encode();
    assert_eq!(Allocation::decode(&tree), Ok(allocation.clone()));
    let text = encode_text(&allocation).unwrap();
    assert_eq!(decode_text::<Allocation>(&text), Ok(allocation));
}

#[test]
fn what_is_no_allocation_is_not_read_as_one() {
    assert_eq!(decode_text::<Allocation>("{}"), Err(DecodeError::MissingField));
    assert_eq!(decode_text::<Allocation>(r#"{"ID":""}"#), Err(DecodeError::MissingField));
    assert_eq!(decode_text::<Allocation>("\"alloc not found\""), Err(DecodeError::TypeMismatch));
    assert_eq!(decode_text::<Allocation>("alloc not found"), Err(DecodeError::Syntax));
    // An identifier that is no text.
    let text = allocation_text("running")
        .replace(r#""ID":"30cd7ef8-cd5c-e950-2ce5-e512fdcdd551""#, r#""ID":30"#);
    assert_eq!(decode_text::<Allocation>(&text), Err(DecodeError::TypeMismatch));
    // A job that lacks its name.
    let text = allocation_text("running").replace(r#""Name":"example","Type""#, r#""Type""#);
    assert_eq!(decode_text::<Allocation>(&text), Err(DecodeError::MissingField));
}
