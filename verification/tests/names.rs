use nomad_api::jobs::{
    AllocatedResources, Allocation, Config, Consul, Cpu, CreateJobRequest, CreateJobResponse,
    DeploymentStatus, DesiredTransition, Details, Device, DevicePlugin, DimensionExhausted,
    DispatchJobRequest, DispatchJobResponse, DynamicPort, EphemeralDisk, Event, Job,
    JobStopResponse, ListJobAllocationsResponse, LogConfig, Memory, Metrics, Migrate, Network,
    NetworkStatus, NodesAvailable, ParseJobPayload, Port, ReschedulePolicy, Resources,
    RestartPolicy, ScoreMetaDaum, Scores, Shared, SharedDevice, SharedResources, Task,
    TaskGroup, TaskState, Update,
};
use nomad_api::text::{decode_text, encode_text};

// Each entity at its zero value, written: every field stands under its wire
// name, in the order of the schema, and what is written is read back.

#[test]
fn dispatch_job_request_is_written_under_its_wire_names() {
    let text = r#"{"Payload":"","Meta":{}}"#;
    assert_eq!(encode_text(&DispatchJobRequest::default()).unwrap(), text);
    assert_eq!(decode_text::<DispatchJobRequest>(text), Ok(DispatchJobRequest::default()));
}

#[test]
fn dispatch_job_response_is_written_under_its_wire_names() {
    let text = r#"{"Index":0,"JobCreateIndex":null,"EvalCreateIndex":null,"eval_id":null,"DispatchedJobID":""}"#;
    assert_eq!(encode_text(&DispatchJobResponse::default()).unwrap(), text);
    assert_eq!(decode_text::<DispatchJobResponse>(text), Ok(DispatchJobResponse::default()));
}

#[test]
fn job_stop_response_is_written_under_its_wire_names() {
    let text = r#"{"EvalID":"","EvalCreateIndex":0,"JobModifyIndex":0}"#;
    assert_eq!(encode_text(&JobStopResponse::default()).unwrap(), text);
    assert_eq!(decode_text::<JobStopResponse>(text), Ok(JobStopResponse::default()));
}

#[test]
fn list_job_allocations_response_is_written_under_its_wire_names() {
    let text = r#"{"ID":"","EvalID":"","Name":"","Namespace":"","NodeID":"","NodeName":"","JobID":"","JobType":"","JobVersion":0,"TaskGroup":"","AllocatedResources":null,"DesiredStatus":"","DesiredDescription":"","ClientStatus":"","ClientDescription":null,"DesiredTransition":{"Migrate":null,"Reschedule":null,"ForceReschedule":null},"TaskStates":null,"DeploymentStatus":null,"FollowupEvalID":null,"RescheduleTracker":null,"PreemptedAllocations":null,"PreemptedByAllocation":"","CreateIndex":0,"ModifyIndex":0,"CreateTime":0,"ModifyTime":0}"#;
    assert_eq!(encode_text(&ListJobAllocationsResponse::default()).unwrap(), text);
    assert_eq!(decode_text::<ListJobAllocationsResponse>(text), Ok(ListJobAllocationsResponse::default()));
}

#[test]
fn desired_transition_is_written_under_its_wire_names() {
    let text = r#"{"Migrate":null,"Reschedule":null,"ForceReschedule":null}"#;
    assert_eq!(encode_text(&DesiredTransition::default()).unwrap(), text);
    assert_eq!(decode_text::<DesiredTransition>(text), Ok(DesiredTransition::default()));
}

#[test]
fn allocation_is_written_under_its_wire_names() {
    let text = r#"{"AllocModifyIndex":0,"AllocatedResources":{"Shared":{"DiskMB":null,"Networks":[],"Ports":[]},"TaskLifecycles":{},"Tasks":{}},"ClientDescription":null,"ClientStatus":"pending","CreateIndex":0,"CreateTime":0,"DeploymentID":null,"DeploymentStatus":null,"DesiredStatus":"","EvalID":null,"ID":"","Job":{"Affinities":null,"AllAtOnce":null,"Constraints":null,"ConsulNamespace":null,"ConsulToken":null,"CreateIndex":0,"Datacenters":null,"Dispatched":null,"ID":"","JobModifyIndex":0,"Meta":null,"ModifyIndex":0,"Multiregion":null,"Name":"","Namespace":null,"NomadTokenID":null,"ParameterizedJob":null,"ParentID":null,"Payload":null,"Periodic":null,"Priority":0,"Region":null,"Spreads":null,"Stable":null,"Status":"pending","StatusDescription":null,"Stop":false,"SubmitTime":null,"TaskGroups":null,"Type":"","Update":null,"VaultNamespace":null,"VaultToken":null,"Version":null},"JobID":"","Metrics":{"AllocationTime":0,"ClassExhausted":null,"ClassFiltered":null,"CoalescedFailures":0,"ConstraintFiltered":null,"DimensionExhausted":null,"NodesAvailable":null,"NodesEvaluated":0,"NodesExhausted":0,"NodesFiltered":0,"QuotaExhausted":null,"ResourcesExhausted":null,"ScoreMetaData":null,"Scores":null},"ModifyIndex":0,"ModifyTime":0,"Name":"","Namespace":"","NetworkStatus":null,"NodeID":"","NodeName":"","Resources":{"CPU":0,"Cores":0,"Devices":null,"DiskMB":null,"IOPS":null,"MemoryMB":0,"MemoryMaxMB":null,"Networks":null},"SharedResources":{"CPU":0,"Cores":0,"Devices":null,"DiskMB":null,"IOPS":null,"MemoryMB":0,"MemoryMaxMB":null,"Networks":null},"TaskGroup":"","TaskResources":{},"TaskStates":{}}"#;
    assert_eq!(encode_text(&Allocation::default()).unwrap(), text);
    assert_eq!(decode_text::<Allocation>(text), Ok(Allocation::default()));
}

#[test]
fn allocated_resources_is_written_under_its_wire_names() {
    let text = r#"{"Shared":{"DiskMB":null,"Networks":[],"Ports":[]},"TaskLifecycles":{},"Tasks":{}}"#;
    assert_eq!(encode_text(&AllocatedResources::default()).unwrap(), text);
    assert_eq!(decode_text::<AllocatedResources>(text), Ok(AllocatedResources::default()));
}

#[test]
fn shared_is_written_under_its_wire_names() {
    let text = r#"{"DiskMB":null,"Networks":[],"Ports":[]}"#;
    assert_eq!(encode_text(&Shared::default()).unwrap(), text);
    assert_eq!(decode_text::<Shared>(text), Ok(Shared::default()));
}

#[test]
fn network_is_written_under_its_wire_names() {
    let text = r#"{"CIDR":"","DNS":null,"Device":"","DynamicPorts":null,"IP":"","MBits":null,"Mode":"","ReservedPorts":null}"#;
    assert_eq!(encode_text(&Network::default()).unwrap(), text);
    assert_eq!(decode_text::<Network>(text), Ok(Network::default()));
}

#[test]
fn dynamic_port_is_written_under_its_wire_names() {
    let text = r#"{"HostNetwork":"","Label":"","To":0,"Value":0}"#;
    assert_eq!(encode_text(&DynamicPort::default()).unwrap(), text);
    assert_eq!(decode_text::<DynamicPort>(text), Ok(DynamicPort::default()));
}

#[test]
fn port_is_written_under_its_wire_names() {
    let text = r#"{"HostIP":"","Label":"","To":0,"Value":0}"#;
    assert_eq!(encode_text(&Port::default()).unwrap(), text);
    assert_eq!(decode_text::<Port>(text), Ok(Port::default()));
}

#[test]
fn cpu_is_written_under_its_wire_names() {
    let text = r#"{"CpuShares":0,"ReservedCores":null}"#;
    assert_eq!(encode_text(&Cpu::default()).unwrap(), text);
    assert_eq!(decode_text::<Cpu>(text), Ok(Cpu::default()));
}

#[test]
fn device_plugin_is_written_under_its_wire_names() {
    let text = r#"{"DeviceIDs":null,"Name":"","Type":"","Vendor":""}"#;
    assert_eq!(encode_text(&DevicePlugin::default()).unwrap(), text);
    assert_eq!(decode_text::<DevicePlugin>(text), Ok(DevicePlugin::default()));
}

#[test]
fn memory_is_written_under_its_wire_names() {
    let text = r#"{"MemoryMB":0,"MemoryMaxMB":0}"#;
    assert_eq!(encode_text(&Memory::default()).unwrap(), text);
    assert_eq!(decode_text::<Memory>(text), Ok(Memory::default()));
}

#[test]
fn deployment_status_is_written_under_its_wire_names() {
    let text = r#"{"Canary":false,"Healthy":false,"ModifyIndex":0,"Timestamp":""}"#;
    assert_eq!(encode_text(&DeploymentStatus::default()).unwrap(), text);
    assert_eq!(decode_text::<DeploymentStatus>(text), Ok(DeploymentStatus::default()));
}

#[test]
fn job_is_written_under_its_wire_names() {
    let text = r#"{"Affinities":null,"AllAtOnce":null,"Constraints":null,"ConsulNamespace":null,"ConsulToken":null,"CreateIndex":0,"Datacenters":null,"Dispatched":null,"ID":"","JobModifyIndex":0,"Meta":null,"ModifyIndex":0,"Multiregion":null,"Name":"","Namespace":null,"NomadTokenID":null,"ParameterizedJob":null,"ParentID":null,"Payload":null,"Periodic":null,"Priority":0,"Region":null,"Spreads":null,"Stable":null,"Status":"pending","StatusDescription":null,"Stop":false,"SubmitTime":null,"TaskGroups":null,"Type":"","Update":null,"VaultNamespace":null,"VaultToken":null,"Version":null}"#;
    assert_eq!(encode_text(&Job::default()).unwrap(), text);
    assert_eq!(decode_text::<Job>(text), Ok(Job::default()));
}

#[test]
fn create_job_request_is_written_under_its_wire_names() {
    let text = r#"{"Job":{"Affinities":null,"AllAtOnce":null,"Constraints":null,"ConsulNamespace":null,"ConsulToken":null,"CreateIndex":0,"Datacenters":null,"Dispatched":null,"ID":"","JobModifyIndex":0,"Meta":null,"ModifyIndex":0,"Multiregion":null,"Name":"","Namespace":null,"NomadTokenID":null,"ParameterizedJob":null,"ParentID":null,"Payload":null,"Periodic":null,"Priority":0,"Region":null,"Spreads":null,"Stable":null,"Status":"pending","StatusDescription":null,"Stop":false,"SubmitTime":null,"TaskGroups":null,"Type":"","Update":null,"VaultNamespace":null,"VaultToken":null,"Version":null}}"#;
    assert_eq!(encode_text(&CreateJobRequest::default()).unwrap(), text);
    assert_eq!(decode_text::<CreateJobRequest>(text), Ok(CreateJobRequest::default()));
}

#[test]
fn create_job_response_is_written_under_its_wire_names() {
    let text = r#"{"EvalID":"","EvalCreateIndex":0,"JobModifyIndex":0,"Warnings":"","Index":0,"LastContact":0,"KnownLeader":false}"#;
    assert_eq!(encode_text(&CreateJobResponse::default()).unwrap(), text);
    assert_eq!(decode_text::<CreateJobResponse>(text), Ok(CreateJobResponse::default()));
}

#[test]
fn task_group_is_written_under_its_wire_names() {
    let text = r#"{"Affinities":null,"Constraints":null,"Consul":null,"Count":0,"EphemeralDisk":null,"Meta":null,"Migrate":null,"Name":"","Networks":null,"ReschedulePolicy":null,"RestartPolicy":null,"Scaling":null,"Services":null,"ShutdownDelay":null,"Spreads":null,"StopAfterClientDisconnect":null,"Tasks":null,"Update":null,"Volumes":null}"#;
    assert_eq!(encode_text(&TaskGroup::default()).unwrap(), text);
    assert_eq!(decode_text::<TaskGroup>(text), Ok(TaskGroup::default()));
}

#[test]
fn consul_is_written_under_its_wire_names() {
    let text = r#"{"Namespace":""}"#;
    assert_eq!(encode_text(&Consul::default()).unwrap(), text);
    assert_eq!(decode_text::<Consul>(text), Ok(Consul::default()));
}

#[test]
fn ephemeral_disk_is_written_under_its_wire_names() {
    let text = r#"{"Migrate":false,"SizeMB":0,"Sticky":false}"#;
    assert_eq!(encode_text(&EphemeralDisk::default()).unwrap(), text);
    assert_eq!(decode_text::<EphemeralDisk>(text), Ok(EphemeralDisk::default()));
}

#[test]
fn migrate_is_written_under_its_wire_names() {
    let text = r#"{"HealthCheck":"","HealthyDeadline":0,"MaxParallel":0,"MinHealthyTime":0}"#;
    assert_eq!(encode_text(&Migrate::default()).unwrap(), text);
    assert_eq!(decode_text::<Migrate>(text), Ok(Migrate::default()));
}

#[test]
fn reschedule_policy_is_written_under_its_wire_names() {
    let text = r#"{"Attempts":0,"Delay":0,"DelayFunction":null,"Interval":0,"MaxDelay":0,"Unlimited":false}"#;
    assert_eq!(encode_text(&ReschedulePolicy::default()).unwrap(), text);
    assert_eq!(decode_text::<ReschedulePolicy>(text), Ok(ReschedulePolicy::default()));
}

#[test]
fn restart_policy_is_written_under_its_wire_names() {
    let text = r#"{"Attempts":0,"Delay":0,"Interval":0,"Mode":""}"#;
    assert_eq!(encode_text(&RestartPolicy::default()).unwrap(), text);
    assert_eq!(decode_text::<RestartPolicy>(text), Ok(RestartPolicy::default()));
}

#[test]
fn task_is_written_under_its_wire_names() {
    let text = r#"{"Affinities":null,"Artifacts":null,"CSIPluginConfig":null,"Config":{"image":"","network_mode":null,"ports":null},"Constraints":null,"DispatchPayload":null,"Driver":"","Env":null,"KillSignal":"","KillTimeout":0,"Kind":"","Leader":false,"Lifecycle":null,"LogConfig":{"MaxFileSizeMB":0,"MaxFiles":0},"Meta":null,"Name":"","Resources":{"CPU":0,"Cores":0,"Devices":null,"DiskMB":null,"IOPS":null,"MemoryMB":0,"MemoryMaxMB":null,"Networks":null},"RestartPolicy":{"Attempts":0,"Delay":0,"Interval":0,"Mode":""},"ScalingPolicies":null,"Services":null,"ShutdownDelay":0,"Templates":null,"User":"","Vault":null,"VolumeMounts":null}"#;
    assert_eq!(encode_text(&Task::default()).unwrap(), text);
    assert_eq!(decode_text::<Task>(text), Ok(Task::default()));
}

#[test]
fn config_is_written_under_its_wire_names() {
    let text = r#"{"image":"","network_mode":null,"ports":null}"#;
    assert_eq!(encode_text(&Config::default()).unwrap(), text);
    assert_eq!(decode_text::<Config>(text), Ok(Config::default()));
}

#[test]
fn log_config_is_written_under_its_wire_names() {
    let text = r#"{"MaxFileSizeMB":0,"MaxFiles":0}"#;
    assert_eq!(encode_text(&LogConfig::default()).unwrap(), text);
    assert_eq!(decode_text::<LogConfig>(text), Ok(LogConfig::default()));
}

#[test]
fn device_is_written_under_its_wire_names() {
    let text = r#"{"Affinities":null,"Constraints":null,"Count":0,"Name":""}"#;
    assert_eq!(encode_text(&Device::default()).unwrap(), text);
    assert_eq!(decode_text::<Device>(text), Ok(Device::default()));
}

#[test]
fn shared_device_is_written_under_its_wire_names() {
    let text = r#"{"DeviceIDs":[],"Name":"","Type":"","Vendor":""}"#;
    assert_eq!(encode_text(&SharedDevice::default()).unwrap(), text);
    assert_eq!(decode_text::<SharedDevice>(text), Ok(SharedDevice::default()));
}

#[test]
fn update_is_written_under_its_wire_names() {
    let text = r#"{"AutoPromote":false,"AutoRevert":false,"Canary":0,"HealthCheck":"","HealthyDeadline":0,"MaxParallel":0,"MinHealthyTime":0,"ProgressDeadline":0,"Stagger":0}"#;
    assert_eq!(encode_text(&Update::default()).unwrap(), text);
    assert_eq!(decode_text::<Update>(text), Ok(Update::default()));
}

#[test]
fn metrics_is_written_under_its_wire_names() {
    let text = r#"{"AllocationTime":0,"ClassExhausted":null,"ClassFiltered":null,"CoalescedFailures":0,"ConstraintFiltered":null,"DimensionExhausted":null,"NodesAvailable":null,"NodesEvaluated":0,"NodesExhausted":0,"NodesFiltered":0,"QuotaExhausted":null,"ResourcesExhausted":null,"ScoreMetaData":null,"Scores":null}"#;
    assert_eq!(encode_text(&Metrics::default()).unwrap(), text);
    assert_eq!(decode_text::<Metrics>(text), Ok(Metrics::default()));
}

#[test]
fn dimension_exhausted_is_written_under_its_wire_names() {
    let text = r#"{"disk":null}"#;
    assert_eq!(encode_text(&DimensionExhausted::default()).unwrap(), text);
    assert_eq!(decode_text::<DimensionExhausted>(text), Ok(DimensionExhausted::default()));
}

#[test]
fn nodes_available_is_written_under_its_wire_names() {
    let text = r#"{"dc1":0}"#;
    assert_eq!(encode_text(&NodesAvailable::default()).unwrap(), text);
    assert_eq!(decode_text::<NodesAvailable>(text), Ok(NodesAvailable::default()));
}

#[test]
fn score_meta_daum_is_written_under_its_wire_names() {
    let text = r#"{"NodeID":"","NormScore":0,"Scores":{"binpack":0,"job-anti-affinity":0,"node-affinity":0,"node-reschedule-penalty":0}}"#;
    assert_eq!(encode_text(&ScoreMetaDaum::default()).unwrap(), text);
    assert_eq!(decode_text::<ScoreMetaDaum>(text), Ok(ScoreMetaDaum::default()));
}

#[test]
fn scores_is_written_under_its_wire_names() {
    let text = r#"{"binpack":0,"job-anti-affinity":0,"node-affinity":0,"node-reschedule-penalty":0}"#;
    assert_eq!(encode_text(&Scores::default()).unwrap(), text);
    assert_eq!(decode_text::<Scores>(text), Ok(Scores::default()));
}

#[test]
fn network_status_is_written_under_its_wire_names() {
    let text = r#"{"Address":"","DNS":null,"InterfaceName":""}"#;
    assert_eq!(encode_text(&NetworkStatus::default()).unwrap(), text);
    assert_eq!(decode_text::<NetworkStatus>(text), Ok(NetworkStatus::default()));
}

#[test]
fn resources_is_written_under_its_wire_names() {
    let text = r#"{"CPU":0,"Cores":0,"Devices":null,"DiskMB":null,"IOPS":null,"MemoryMB":0,"MemoryMaxMB":null,"Networks":null}"#;
    assert_eq!(encode_text(&Resources::default()).unwrap(), text);
    assert_eq!(decode_text::<Resources>(text), Ok(Resources::default()));
}

#[test]
fn shared_resources_is_written_under_its_wire_names() {
    let text = r#"{"Cpu":{"CpuShares":0,"ReservedCores":null},"Devices":null,"DiskMB":null,"IOPS":null,"Memory":null,"Networks":null}"#;
    assert_eq!(encode_text(&SharedResources::default()).unwrap(), text);
    assert_eq!(decode_text::<SharedResources>(text), Ok(SharedResources::default()));
}

#[test]
fn task_state_is_written_under_its_wire_names() {
    let text = r#"{"Events":null,"Failed":null,"FinishedAt":null,"LastRestart":null,"Restarts":0,"StartedAt":null,"State":"pending","TaskHandle":null}"#;
    assert_eq!(encode_text(&TaskState::default()).unwrap(), text);
    assert_eq!(decode_text::<TaskState>(text), Ok(TaskState::default()));
}

#[test]
fn event_is_written_under_its_wire_names() {
    let text = r#"{"Details":{"message":null,"image":null,"restart_reason":null,"exit_code":null,"exit_message":null,"oom_killed":null,"signal":null,"start_delay":null},"DiskLimit":0,"DisplayMessage":"","DownloadError":"","DriverError":"","DriverMessage":"","ExitCode":0,"FailedSibling":"","FailsTask":false,"GenericSource":"","KillError":"","KillReason":"","KillTimeout":0,"Message":"","RestartReason":"","SetupError":"","Signal":0,"StartDelay":0,"TaskSignal":"","TaskSignalReason":"","Time":0,"Type":"","ValidationError":"","VaultError":""}"#;
    assert_eq!(encode_text(&Event::default()).unwrap(), text);
    assert_eq!(decode_text::<Event>(text), Ok(Event::default()));
}

#[test]
fn details_is_written_under_its_wire_names() {
    let text = r#"{"message":null,"image":null,"restart_reason":null,"exit_code":null,"exit_message":null,"oom_killed":null,"signal":null,"start_delay":null}"#;
    assert_eq!(encode_text(&Details::default()).unwrap(), text);
    assert_eq!(decode_text::<Details>(text), Ok(Details::default()));
}

#[test]
fn parse_job_payload_is_written_under_its_wire_names() {
    let text = r#"{"JobHCL":"","canonicalize":false}"#;
    assert_eq!(encode_text(&ParseJobPayload::default()).unwrap(), text);
    assert_eq!(decode_text::<ParseJobPayload>(text), Ok(ParseJobPayload::default()));
}
