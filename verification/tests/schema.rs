use nomad_api::jobs::{
    Allocation, Config, Consul, DimensionExhausted, Job, LogConfig, Network, Resources,
    RestartPolicy, RunningStatus, Scores, Shared, Task, TaskGroup, TaskState,
};
use nomad_api::json::{Json, Number};
use nomad_api::text::{decode_text, encode_text, parse, render};
use nomad_api::wire::{field, field_or, find, put, DecodeError, Wire};

fn s(x: &str) -> String {
    x.to_string()
}

fn num(i: i64) -> Json {
    Json::Number(Number::Int(i))
}

fn names(tree: &Json) -> Vec<String> {
    match tree {
        Json::Object(members) => members.iter().map(|m| m.0.clone()).collect(),
        other => panic!("not an object: {:?}", other),
    }
}

/// What the scheduler answers when it parses a small job with every default
/// filled in.
fn canonical_job_text() -> &'static str {
    r#"{
  "Affinities": null,
  "AllAtOnce": false,
  "Constraints": [{"LTarget": "${attr.kernel.name}", "Operand": "=", "RTarget": "linux"}],
  "ConsulToken": "",
  "CreateIndex": 0,
  "Datacenters": ["dc1"],
  "Dispatched": false,
  "ID": "worker",
  "JobModifyIndex": 0,
  "Meta": {"zone": "b", "owner": "ops"},
  "ModifyIndex": 0,
  "Multiregion": null,
  "Name": "worker",
  "Namespace": "default",
  "NomadTokenID": "",
  "ParameterizedJob": {"MetaOptional": null, "MetaRequired": ["numpire_image"], "Payload": "optional"},
  "ParentID": "",
  "Payload": null,
  "Periodic": null,
  "Priority": 50,
  "Region": "global",
  "Spreads": null,
  "Stable": false,
  "Status": "",
  "StatusDescription": "",
  "Stop": false,
  "SubmitTime": null,
  "TaskGroups": [
    {
      "Affinities": null,
      "Constraints": null,
      "Consul": {"Namespace": ""},
      "Count": 1,
      "EphemeralDisk": {"Migrate": false, "SizeMB": 300, "Sticky": false},
      "Meta": null,
      "Migrate": null,
      "Name": "worker",
      "Networks": null,
      "ReschedulePolicy": {"Attempts": 1, "Delay": 5000000000, "DelayFunction": "constant", "Interval": 86400000000000, "MaxDelay": 0, "Unlimited": false},
      "RestartPolicy": {"Attempts": 3, "Delay": 15000000000, "Interval": 86400000000000, "Mode": "fail"},
      "Scaling": null,
      "Services": null,
      "ShutdownDelay": null,
      "Spreads": null,
      "StopAfterClientDisconnect": null,
      "Tasks": [
        {
          "Affinities": null,
          "Artifacts": null,
          "CSIPluginConfig": null,
          "Config": {"image": "localhost:5000/agridos-worker", "network_mode": "host"},
          "Constraints": null,
          "DispatchPayload": {"File": "input.json"},
          "Driver": "docker",
          "Env": {"RUST_LOG": "info"},
          "KillSignal": "",
          "KillTimeout": 5000000000,
          "Kind": "",
          "Leader": false,
          "Lifecycle": null,
          "LogConfig": {"MaxFileSizeMB": 10, "MaxFiles": 10},
          "Meta": null,
          "Name": "worker",
          "Resources": {"CPU": 500, "Cores": 0, "Devices": [{"Affinities": null, "Constraints": null, "Count": 1, "Name": "nvidia/gpu"}], "DiskMB": 0, "IOPS": 0, "MemoryMB": 256, "MemoryMaxMB": 0, "Networks": null},
          "RestartPolicy": {"Attempts": 3, "Delay": 15000000000, "Interval": 86400000000000, "Mode": "fail"},
          "ScalingPolicies": null,
          "Services": null,
          "ShutdownDelay": 0,
          "Templates": null,
          "User": "",
          "Vault": null,
          "VolumeMounts": null
        }
      ],
      "Update": null,
      "Volumes": null
    }
  ],
  "Type": "batch",
  "Update": {"AutoPromote": false, "AutoRevert": false, "Canary": 0, "HealthCheck": "", "HealthyDeadline": 0, "MaxParallel": 0, "MinHealthyTime": 0, "ProgressDeadline": 0, "Stagger": 0},
  "VaultNamespace": "",
  "VaultToken": "",
  "Version": 0
}"#
}

#[test]
fn a_parsed_job_has_its_defaults_filled() {
    let job: Job = decode_text(canonical_job_text()).unwrap();
    assert_eq!(job.id, "worker");
    assert_eq!(job.name, "worker");
    assert_eq!(job.type_field, "batch");
    assert_eq!(job.priority, 50);
    assert_eq!(job.region, Some(s("global")));
    assert_eq!(job.namespace, Some(s("default")));
    assert_eq!(job.datacenters, Some(vec![s("dc1")]));
    assert_eq!(job.status, RunningStatus::Missing);
    assert_eq!(job.all_at_once, Some(false));
    assert_eq!(job.submit_time, None);
    assert_eq!(job.version, Some(0));
    assert_eq!(job.affinities, None);
    let groups = job.task_groups.as_ref().unwrap();
    assert_eq!(groups.len(), 1);
    let group = &groups[0];
    assert_eq!(group.count, 1);
    assert_eq!(
        group.restart_policy,
        Some(RestartPolicy { attempts: 3, delay: 15000000000, interval: 86400000000000, mode: s("fail") })
    );
    let policy = group.reschedule_policy.as_ref().unwrap();
    assert_eq!(policy.attempts, 1);
    assert_eq!(policy.delay_function, Some(s("constant")));
    assert_eq!(group.ephemeral_disk.as_ref().unwrap().size_mb, 300);
    assert_eq!(group.consul, Some(Consul { namespace: s("") }));
    let tasks = group.tasks.as_ref().unwrap();
    assert_eq!(tasks.len(), 1);
    let task = &tasks[0];
    assert_eq!(task.driver, "docker");
    assert_eq!(task.restart_policy.attempts, 3);
    assert_eq!(task.restart_policy.mode, "fail");
    assert_eq!(task.kill_timeout, 5000000000);
    assert_eq!(task.log_config, LogConfig { max_file_size_mb: 10, max_files: 10 });
    assert_eq!(
        task.config,
        Config { image: s("localhost:5000/agridos-worker"), network_mode: Some(s("host")), ports: None }
    );
    assert_eq!(task.env, Some(vec![(s("RUST_LOG"), s("info"))]));
    assert_eq!(task.resources.cpu, 500);
    assert_eq!(task.resources.memory_mb, 256);
    assert_eq!(task.resources.disk_mb, Some(0));
    assert_eq!(task.resources.networks, None);
    assert_eq!(task.resources.devices.as_ref().unwrap()[0].name, "nvidia/gpu");
    assert_eq!(job.update.as_ref().unwrap().max_parallel, 0);
}

#[test]
fn a_job_is_read_back_from_what_it_is_written_as() {
    let job: Job = decode_text(canonical_job_text()).unwrap();
    let tree = job.encode();
    assert_eq!(Job::decode(&tree), Ok(job.clone()));
    let text = encode_text(&job).unwrap();
    let again: Job = decode_text(&text).unwrap();
    assert_eq!(again, job);
    assert_eq!(encode_text(&again).unwrap(), text);
}

#[test]
fn untyped_substructures_pass_through_as_they_are() {
    let job: Job = decode_text(canonical_job_text()).unwrap();
    let constraints = job.constraints.as_ref().unwrap();
    assert_eq!(
        render(constraints).unwrap(),
        r#"[{"LTarget":"${attr.kernel.name}","Operand":"=","RTarget":"linux"}]"#
    );
    // The order of the members is the order of the text, not of the alphabet.
    assert_eq!(render(job.meta.as_ref().unwrap()).unwrap(), r#"{"zone":"b","owner":"ops"}"#);
    assert_eq!(
        render(job.parameterized_job.as_ref().unwrap()).unwrap(),
        r#"{"MetaOptional":null,"MetaRequired":["numpire_image"],"Payload":"optional"}"#
    );
    let text = encode_text(&job).unwrap();
    assert!(text.contains(r#""Meta":{"zone":"b","owner":"ops"}"#));
    assert!(text.contains(r#""DispatchPayload":{"File":"input.json"}"#));
}

#[test]
fn a_job_is_written_under_its_wire_names_in_order() {
    let tree = Job::default().encode();
    assert_eq!(
        names(&tree),
        vec![
            "Affinities", "AllAtOnce", "Constraints", "ConsulNamespace", "ConsulToken",
            "CreateIndex", "Datacenters", "Dispatched", "ID", "JobModifyIndex", "Meta",
            "ModifyIndex", "Multiregion", "Name", "Namespace", "NomadTokenID",
            "ParameterizedJob", "ParentID", "Payload", "Periodic", "Priority", "Region",
            "Spreads", "Stable", "Status", "StatusDescription", "Stop", "SubmitTime",
            "TaskGroups", "Type", "Update", "VaultNamespace", "VaultToken", "Version",
        ]
    );
    assert_eq!(find(match &tree { Json::Object(m) => m, _ => panic!() }, "Status"), Some(&Json::Str(s("pending"))));
    assert_eq!(find(match &tree { Json::Object(m) => m, _ => panic!() }, "Priority"), Some(&num(0)));
    assert_eq!(find(match &tree { Json::Object(m) => m, _ => panic!() }, "TaskGroups"), Some(&Json::Null));
    assert_eq!(find(match &tree { Json::Object(m) => m, _ => panic!() }, "status"), None);
}

#[test]
fn wire_names_that_are_not_capitalized() {
    let config = Config { image: s("redis:7"), network_mode: None, ports: Some(vec![s("db")]) };
    assert_eq!(encode_text(&config).unwrap(), r#"{"image":"redis:7","network_mode":null,"ports":["db"]}"#);
    let scores = Scores {
        binpack: Number::Float(s("0.5")),
        job_anti_affinity: Number::Int(0),
        node_affinity: Number::Int(0),
        node_reschedule_penalty: Number::Int(-1),
    };
    assert_eq!(
        encode_text(&scores).unwrap(),
        r#"{"binpack":0.5,"job-anti-affinity":0,"node-affinity":0,"node-reschedule-penalty":-1}"#
    );
    assert_eq!(decode_text::<DimensionExhausted>(r#"{"disk":3}"#), Ok(DimensionExhausted { disk: Some(3) }));
    assert_eq!(decode_text::<DimensionExhausted>(r#"{"Disk":3}"#), Ok(DimensionExhausted { disk: None }));
}

#[test]
fn a_status_of_any_word_is_read() {
    let cases = [
        ("queued", RunningStatus::Queued),
        ("Queued", RunningStatus::Queued),
        ("complete", RunningStatus::Complete),
        ("Complete", RunningStatus::Complete),
        ("failed", RunningStatus::Failed),
        ("Failed", RunningStatus::Failed),
        ("running", RunningStatus::Running),
        ("Running", RunningStatus::Running),
        ("starting", RunningStatus::Starting),
        ("Starting", RunningStatus::Starting),
        ("lost", RunningStatus::Lost),
        ("Lost", RunningStatus::Lost),
        ("pending", RunningStatus::Pending),
        ("Pending", RunningStatus::Pending),
        ("dead", RunningStatus::Dead),
        ("Dead", RunningStatus::Dead),
        ("", RunningStatus::Missing),
        ("Missing", RunningStatus::Missing),
        ("unknown", RunningStatus::Missing),
        ("RUNNING", RunningStatus::Missing),
        ("reconnecting", RunningStatus::Missing),
    ];
    for (word, status) in cases {
        assert_eq!(RunningStatus::from_word(word), status, "{:?}", word);
        assert_eq!(RunningStatus::decode(&Json::Str(s(word))), Ok(status), "{:?}", word);
        let text = canonical_job_text().replace(r#""Status": """#, &format!(r#""Status": "{}""#, word));
        let job: Job = decode_text(&text).unwrap();
        assert_eq!(job.status, status, "{:?}", word);
    }
}

#[test]
fn a_status_is_written_in_the_word_of_the_scheduler() {
    let all = [
        (RunningStatus::Queued, "queued"),
        (RunningStatus::Complete, "complete"),
        (RunningStatus::Failed, "failed"),
        (RunningStatus::Running, "running"),
        (RunningStatus::Starting, "starting"),
        (RunningStatus::Lost, "lost"),
        (RunningStatus::Pending, "pending"),
        (RunningStatus::Dead, "dead"),
        (RunningStatus::Missing, ""),
    ];
    for (status, word) in all {
        assert_eq!(status.as_word(), word);
        assert_eq!(status.encode(), Json::Str(s(word)));
        assert_eq!(RunningStatus::decode(&status.encode()), Ok(status));
        // What was read from the word is written as the word.
        assert_eq!(RunningStatus::from_word(word).encode(), Json::Str(s(word)));
    }
    assert_eq!(RunningStatus::default(), RunningStatus::Pending);
    let job: Job = decode_text(canonical_job_text()).unwrap();
    assert!(encode_text(&job).unwrap().contains(r#""Status":"","#));
}

#[test]
fn a_status_that_is_no_word_is_refused() {
    assert_eq!(RunningStatus::decode(&num(1)), Err(DecodeError::TypeMismatch));
    assert_eq!(RunningStatus::decode(&Json::Null), Err(DecodeError::TypeMismatch));
    let text = canonical_job_text().replace(r#""Status": "","#, "");
    assert_eq!(decode_text::<Job>(&text), Err(DecodeError::MissingField));
    let text = canonical_job_text().replace(r#""Status": "","#, r#""Status": null,"#);
    assert_eq!(decode_text::<Job>(&text), Err(DecodeError::TypeMismatch));
}

#[test]
fn a_task_state_of_an_unknown_word_is_read() {
    let state: TaskState = decode_text(r#"{"State":"","Restarts":2}"#).unwrap();
    assert_eq!(state.state, RunningStatus::Missing);
    assert_eq!(state.restarts, 2);
    assert_eq!(state.failed, None);
    assert_eq!(state.events, None);
    let state: TaskState = decode_text(r#"{"State":"paused","Restarts":0,"Failed":true}"#).unwrap();
    assert_eq!(state.state, RunningStatus::Missing);
    assert_eq!(state.failed, Some(true));
}

#[test]
fn minimal_resources_leave_what_is_left_out_absent() {
    let resources: Resources = decode_text(r#"{"CPU":100,"Cores":0,"MemoryMB":64}"#).unwrap();
    assert_eq!(
        resources,
        Resources {
            cpu: 100,
            cores: 0,
            devices: None,
            disk_mb: None,
            iops: None,
            memory_mb: 64,
            memory_max_mb: None,
            networks: None,
        }
    );
    let zero: Resources = decode_text(r#"{"CPU":100,"Cores":0,"MemoryMB":64,"DiskMB":0,"IOPS":null}"#).unwrap();
    assert_eq!(zero.disk_mb, Some(0));
    assert_eq!(zero.iops, None);
    assert_ne!(zero, resources);
}

#[test]
fn resources_lacking_what_they_must_hold_are_refused() {
    assert_eq!(decode_text::<Resources>(r#"{"CPU":100,"Cores":0}"#), Err(DecodeError::MissingField));
    assert_eq!(decode_text::<Resources>(r#"{"Cores":0,"MemoryMB":1}"#), Err(DecodeError::MissingField));
    assert_eq!(
        decode_text::<Resources>(r#"{"CPU":"100","Cores":0,"MemoryMB":64}"#),
        Err(DecodeError::TypeMismatch)
    );
    assert_eq!(
        decode_text::<Resources>(r#"{"CPU":null,"Cores":0,"MemoryMB":64}"#),
        Err(DecodeError::TypeMismatch)
    );
    assert_eq!(
        decode_text::<Resources>(r#"{"CPU":1.5,"Cores":0,"MemoryMB":64}"#),
        Err(DecodeError::TypeMismatch)
    );
    assert_eq!(decode_text::<Resources>(r#"[100,0,64]"#), Err(DecodeError::TypeMismatch));
    assert_eq!(decode_text::<Resources>(r#"{"CPU":100,"#), Err(DecodeError::Syntax));
}

#[test]
fn the_first_fault_in_the_order_of_the_fields_is_reported() {
    // CPU comes before MemoryMB: its fault is the one reported.
    assert_eq!(decode_text::<Resources>(r#"{"CPU":"x","Cores":0}"#), Err(DecodeError::TypeMismatch));
    assert_eq!(decode_text::<Resources>(r#"{"MemoryMB":"x","Cores":0}"#), Err(DecodeError::MissingField));
}

#[test]
fn integers_are_held_to_their_range() {
    assert_eq!(i64::decode(&num(i64::MIN)), Ok(i64::MIN));
    assert_eq!(i64::decode(&Json::Number(Number::UInt(9223372036854775807))), Ok(i64::MAX));
    assert_eq!(i64::decode(&Json::Number(Number::UInt(9223372036854775808))), Err(DecodeError::TypeMismatch));
    assert_eq!(i64::decode(&Json::Number(Number::Float(s("1.0")))), Err(DecodeError::TypeMismatch));
    assert_eq!(u32::decode(&num(0)), Ok(0));
    assert_eq!(u32::decode(&num(4294967295)), Ok(4294967295));
    assert_eq!(u32::decode(&num(4294967296)), Err(DecodeError::TypeMismatch));
    assert_eq!(u32::decode(&num(-1)), Err(DecodeError::TypeMismatch));
    assert_eq!(u32::decode(&Json::Number(Number::UInt(4294967296))), Err(DecodeError::TypeMismatch));
    assert_eq!(decode_text::<i64>("-9223372036854775808"), Ok(i64::MIN));
    assert_eq!(decode_text::<i64>("9223372036854775808"), Err(DecodeError::TypeMismatch));
    assert_eq!(decode_text::<i64>("1e3"), Err(DecodeError::TypeMismatch));
    assert_eq!(7i64.encode(), num(7));
    assert_eq!(7u32.encode(), num(7));
    assert_eq!(encode_text(&-7i64).unwrap(), "-7");
}

#[test]
fn scalars_are_read_from_their_own_kind_only() {
    assert_eq!(bool::decode(&Json::Bool(true)), Ok(true));
    assert_eq!(bool::decode(&num(1)), Err(DecodeError::TypeMismatch));
    assert_eq!(String::decode(&Json::Str(s("a"))), Ok(s("a")));
    assert_eq!(String::decode(&Json::Null), Err(DecodeError::TypeMismatch));
    assert_eq!(Number::decode(&Json::Number(Number::Float(s("0.25")))), Ok(Number::Float(s("0.25"))));
    assert_eq!(Number::decode(&num(3)), Ok(Number::Int(3)));
    assert_eq!(Number::decode(&Json::Str(s("3"))), Err(DecodeError::TypeMismatch));
    assert_eq!(Json::decode(&Json::Null), Ok(Json::Null));
    assert_eq!(true.encode(), Json::Bool(true));
    assert_eq!(s("a").encode(), Json::Str(s("a")));
}

#[test]
fn what_may_be_left_out_is_absent_when_null_or_missing() {
    assert_eq!(<Option<i64>>::decode(&Json::Null), Ok(None));
    assert_eq!(<Option<i64>>::decode(&num(0)), Ok(Some(0)));
    assert_eq!(<Option<i64>>::decode(&Json::Str(s("0"))), Err(DecodeError::TypeMismatch));
    assert_eq!(<Option<Json>>::decode(&Json::Null), Ok(None));
    assert_eq!(<Option<Json>>::decode(&Json::Bool(false)), Ok(Some(Json::Bool(false))));
    assert_eq!(<Option<i64>>::absent(), Ok(None));
    assert_eq!(i64::absent(), Err(DecodeError::MissingField));
    assert_eq!(Json::absent(), Err(DecodeError::MissingField));
    assert_eq!(<Vec<i64>>::absent(), Err(DecodeError::MissingField));
    assert_eq!(None::<i64>.encode(), Json::Null);
    assert_eq!(Some(4i64).encode(), num(4));
    let object = parse(r#"{"a":1,"b":null}"#).unwrap();
    assert_eq!(field::<Option<i64>>(&object, "a"), Ok(Some(1)));
    assert_eq!(field::<Option<i64>>(&object, "b"), Ok(None));
    assert_eq!(field::<Option<i64>>(&object, "c"), Ok(None));
    assert_eq!(field::<i64>(&object, "c"), Err(DecodeError::MissingField));
    assert_eq!(field::<i64>(&object, "b"), Err(DecodeError::TypeMismatch));
    assert_eq!(field::<i64>(&num(1), "a"), Err(DecodeError::TypeMismatch));
    assert_eq!(field_or::<Vec<i64>>(&object, "c", vec![]), Ok(vec![]));
    assert_eq!(field_or::<Vec<i64>>(&object, "b", vec![]), Err(DecodeError::TypeMismatch));
    assert_eq!(field_or::<Vec<i64>>(&num(1), "c", vec![]), Err(DecodeError::TypeMismatch));
}

#[test]
fn the_last_of_two_members_of_one_name_is_the_one_found() {
    let mut members = Vec::new();
    put(&mut members, "a", num(1));
    put(&mut members, "b", num(2));
    put(&mut members, "a", num(3));
    assert_eq!(members.len(), 3);
    assert_eq!(find(&members, "a"), Some(&num(3)));
    assert_eq!(find(&members, "b"), Some(&num(2)));
    assert_eq!(find(&members, "c"), None);
    assert_eq!(field::<i64>(&Json::Object(members), "a"), Ok(3));
}

#[test]
fn lists_and_maps_are_read_in_order() {
    assert_eq!(decode_text::<Vec<i64>>("[3,1,2]"), Ok(vec![3, 1, 2]));
    assert_eq!(decode_text::<Vec<i64>>("[]"), Ok(vec![]));
    assert_eq!(decode_text::<Vec<i64>>("[3,\"x\",2]"), Err(DecodeError::TypeMismatch));
    assert_eq!(decode_text::<Vec<i64>>("{}"), Err(DecodeError::TypeMismatch));
    assert_eq!(
        decode_text::<Vec<(String, String)>>(r#"{"b":"2","a":"1"}"#),
        Ok(vec![(s("b"), s("2")), (s("a"), s("1"))])
    );
    assert_eq!(decode_text::<Vec<(String, String)>>(r#"{"b":2}"#), Err(DecodeError::TypeMismatch));
    assert_eq!(decode_text::<Vec<(String, String)>>("[]"), Err(DecodeError::TypeMismatch));
    assert_eq!(encode_text(&vec![3i64, 1, 2]).unwrap(), "[3,1,2]");
    assert_eq!(encode_text(&vec![(s("b"), 2i64), (s("a"), 1i64)]).unwrap(), r#"{"b":2,"a":1}"#);
}

#[test]
fn lists_that_default_to_empty() {
    let shared: Shared = decode_text(r#"{}"#).unwrap();
    assert_eq!(shared, Shared { disk_mb: None, networks: vec![], ports: vec![] });
    assert_eq!(decode_text::<Shared>(r#"{"Networks":null}"#), Err(DecodeError::TypeMismatch));
    let shared: Shared = decode_text(
        r#"{"DiskMB":300,"Ports":[{"HostIP":"10.0.0.1","Label":"db","To":6379,"Value":22000}]}"#,
    )
    .unwrap();
    assert_eq!(shared.disk_mb, Some(300));
    assert_eq!(shared.ports.len(), 1);
    assert_eq!(shared.ports[0].host_ip, "10.0.0.1");
    assert_eq!(shared.ports[0].value, 22000);
    assert_eq!(encode_text(&Shared::default()).unwrap(), r#"{"DiskMB":null,"Networks":[],"Ports":[]}"#);
}

#[test]
fn a_network_with_its_ports() {
    let text = r#"{"CIDR":"","DNS":null,"Device":"eth0","DynamicPorts":[{"HostNetwork":"default","Label":"db","To":6379,"Value":23116}],"IP":"10.0.2.15","MBits":10,"Mode":"host","ReservedPorts":null}"#;
    let network: Network = decode_text(text).unwrap();
    assert_eq!(network.device, "eth0");
    assert_eq!(network.ip, "10.0.2.15");
    assert_eq!(network.mbits, Some(10));
    assert_eq!(network.dns, None);
    assert_eq!(network.reserved_ports, None);
    let ports = network.dynamic_ports.as_ref().unwrap();
    assert_eq!(ports[0].label, "db");
    assert_eq!(ports[0].to, 6379);
    assert_eq!(encode_text(&network).unwrap(), text);
}

#[test]
fn zero_values() {
    let job = Job::default();
    assert_eq!(job.id, "");
    assert_eq!(job.priority, 0);
    assert!(!job.stop);
    assert_eq!(job.status, RunningStatus::Pending);
    assert_eq!(job.task_groups, None);
    assert_eq!(job.meta, None);
    let task = Task::default();
    assert_eq!(task.resources, Resources::default());
    assert_eq!(task.resources.cpu, 0);
    assert_eq!(task.resources.disk_mb, None);
    assert_eq!(task.restart_policy, RestartPolicy { attempts: 0, delay: 0, interval: 0, mode: s("") });
    assert_eq!(task.env, None);
    let group = TaskGroup::default();
    assert_eq!(group.count, 0);
    assert_eq!(group.tasks, None);
    let allocation = Allocation::default();
    assert_eq!(allocation.client_status, RunningStatus::Pending);
    assert_eq!(allocation.task_states, vec![]);
    assert_eq!(allocation.job, Job::default());
    assert_eq!(allocation.metrics.score_meta_data, None);
    // A zero value is read back from what it is written as.
    assert_eq!(Job::decode(&job.encode()), Ok(job));
    assert_eq!(Allocation::decode(&allocation.encode()), Ok(allocation));
}

fn task_text(resources: &str) -> String {
    format!(
        r#"{{"Config":{{"image":"redis:7"}},"Driver":"docker","KillSignal":"","KillTimeout":5000000000,"Kind":"","Leader":false,"LogConfig":{{"MaxFileSizeMB":10,"MaxFiles":10}},"Name":"redis"{},"RestartPolicy":{{"Attempts":2,"Delay":15000000000,"Interval":1800000000000,"Mode":"fail"}},"ShutdownDelay":0,"User":""}}"#,
        resources
    )
}

#[test]
fn a_task_always_has_its_resources() {
    let task: Task = decode_text(&task_text(r#","Resources":{"CPU":500,"Cores":0,"MemoryMB":256}"#)).unwrap();
    assert_eq!(task.name, "redis");
    assert_eq!(
        task.resources,
        Resources {
            cpu: 500,
            cores: 0,
            devices: None,
            disk_mb: None,
            iops: None,
            memory_mb: 256,
            memory_max_mb: None,
            networks: None,
        }
    );
    assert_eq!(task.env, None);
    assert_eq!(task.config.ports, None);
    assert_eq!(decode_text::<Task>(&task_text("")), Err(DecodeError::MissingField));
    assert_eq!(decode_text::<Task>(&task_text(r#","Resources":null"#)), Err(DecodeError::TypeMismatch));
}

fn event_text(kind: &str, time: i64) -> String {
    format!(
        r#"{{"Details":{{}},"DiskLimit":0,"DisplayMessage":"","DownloadError":"","DriverError":"","DriverMessage":"","ExitCode":0,"FailedSibling":"","FailsTask":false,"GenericSource":"","KillError":"","KillReason":"","KillTimeout":0,"Message":"","RestartReason":"","SetupError":"","Signal":0,"StartDelay":0,"TaskSignal":"","TaskSignalReason":"","Time":{},"Type":"{}","ValidationError":"","VaultError":""}}"#,
        time, kind
    )
}

#[test]
fn events_stay_in_the_order_delivered() {
    let text = format!(
        r#"{{"Events":[{},{},{}],"Failed":false,"Restarts":1,"State":"running"}}"#,
        event_text("Received", 30),
        event_text("Started", 10),
        event_text("Restarting", 20)
    );
    let state: TaskState = decode_text(&text).unwrap();
    let events = state.events.as_ref().unwrap();
    let kinds: Vec<&str> = events.iter().map(|e| e.type_field.as_str()).collect();
    assert_eq!(kinds, vec!["Received", "Started", "Restarting"]);
    let times: Vec<i64> = events.iter().map(|e| e.time).collect();
    assert_eq!(times, vec![30, 10, 20]);
    let again: TaskState = decode_text(&encode_text(&state).unwrap()).unwrap();
    assert_eq!(again, state);
}

#[test]
fn members_that_the_schema_does_not_know_are_passed_over() {
    let text = r#"{"Attempts":3,"Later":{"Added":true},"Delay":1,"Interval":2,"Mode":"delay","RenderTemplates":false}"#;
    assert_eq!(
        decode_text::<RestartPolicy>(text),
        Ok(RestartPolicy { attempts: 3, delay: 1, interval: 2, mode: s("delay") })
    );
}
