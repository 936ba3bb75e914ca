use nomad_api::client::{read_response, Failure, Method, NomadClient, Request, TOKEN_HEADER};
use nomad_api::jobs::{DispatchJobRequest, Job, RunningStatus};
use nomad_api::text::EncodeError;
use nomad_api::wire::DecodeError;

fn client() -> NomadClient {
    NomadClient::new("http://127.0.0.1:4646".to_string(), "".to_string())
}

fn job_text(id: &str, status: &str) -> String {
    format!(
        r#"{{"ID":"{}","Name":"{}","Type":"batch","Status":"{}","Priority":50,"Stop":false,"CreateIndex":7,"ModifyIndex":9,"JobModifyIndex":8}}"#,
        id, id, status
    )
}

#[test]
fn client_test_list_jobs() {
    let client = client();
    let request = client.list_jobs();
    assert_eq!(
        request,
        Request {
            method: Method::Get,
            url: "http://127.0.0.1:4646/v1/jobs".to_string(),
            token: "".to_string(),
            body: None,
        }
    );
    let body = format!("[{}]", job_text("numpire-worker-gpu", "running"));
    let list_nodes_response = NomadClient::list_jobs_response(&body);
    println!("{:?}", &list_nodes_response);
    for job in list_nodes_response.unwrap() {
        println!("Stopping job with id {}", &job.id);
        let stop = client.stop_job(&job.id);
        assert_eq!(stop.method, Method::Delete);
        assert_eq!(stop.url, "http://127.0.0.1:4646/v1/job/numpire-worker-gpu");
        NomadClient::stop_job_response(
            r#"{"EvalID":"d092fdc0-e1fd-2536-67d8-43af8ca798ac","EvalCreateIndex":35,"JobModifyIndex":34}"#,
        )
        .unwrap();
    }
}

#[test]
fn job_test_list_jobs() {
    let client = client();
    let list_nodes_response = NomadClient::list_jobs_response("[]");
    println!("{:?}", &list_nodes_response);
    assert_eq!(list_nodes_response.unwrap().len(), 0);
    assert_eq!(client.list_jobs().url, "http://127.0.0.1:4646/v1/jobs");
}

#[test]
fn client_test_list_job_allocations() {
    let client = client();
    let request =
        client.list_job_allocations("numpire-worker-gpu/dispatch-1626361554-dc6a23ac");
    assert_eq!(request.method, Method::Get);
    assert_eq!(
        request.url,
        "http://127.0.0.1:4646/v1/job/numpire-worker-gpu/dispatch-1626361554-dc6a23ac/allocations"
    );
    assert_eq!(request.body, None);
    let list_job_allocations_response = NomadClient::list_job_allocations_response("[]");
    println!("{:?}", &list_job_allocations_response);
    list_job_allocations_response.unwrap();
}

#[test]
fn job_test_list_job_allocations() {
    let body = r#"[{
        "ID":"ed344e0a-7290-d117-41d3-a64f853ca3c2","EvalID":"a9c5effc-2242-51b2-f1fe-054ee11ab189",
        "Name":"example.cache[0]","Namespace":"default","NodeID":"cb1f6030-a220-4f92-57dc-7baaabdc3823",
        "NodeName":"worker-1","JobID":"numpire-worker-gpu/dispatch-1626361554-dc6a23ac","JobType":"batch","JobVersion":0,
        "TaskGroup":"cache","AllocatedResources":null,"DesiredStatus":"run","DesiredDescription":"",
        "ClientStatus":"running","ClientDescription":"",
        "DesiredTransition":{"Migrate":null,"Reschedule":null,"ForceReschedule":null},
        "TaskStates":{"redis":{"State":"running","Failed":false,"Restarts":0,"StartedAt":"2017-05-25T23:41:23.240184101Z","FinishedAt":null,"LastRestart":null,"Events":null}},
        "DeploymentStatus":null,"FollowupEvalID":"","RescheduleTracker":null,"PreemptedAllocations":null,"PreemptedByAllocation":"",
        "CreateIndex":9,"ModifyIndex":13,"CreateTime":1495755675944527600,"ModifyTime":1495755675944527600
    }]"#;
    let list_job_allocations_response = NomadClient::list_job_allocations_response(body);
    println!("{:?}", &list_job_allocations_response);
    let list = list_job_allocations_response.unwrap();
    assert_eq!(list.len(), 1);
    assert_eq!(list[0].id, "ed344e0a-7290-d117-41d3-a64f853ca3c2");
    assert_eq!(list[0].job_id, "numpire-worker-gpu/dispatch-1626361554-dc6a23ac");
    assert_eq!(list[0].client_status, "running");
    assert_eq!(list[0].client_description, Some("".to_string()));
    assert_eq!(list[0].followup_eval_id, Some("".to_string()));
    assert_eq!(list[0].create_time, 1495755675944527600);
    let states = list[0].task_states.as_ref().unwrap();
    assert_eq!(states.len(), 1);
    assert_eq!(states[0].0, "redis");
    assert_eq!(states[0].1.state, RunningStatus::Running);
    assert_eq!(states[0].1.events, None);
}

#[test]
fn client_test_read_allocation() {
    let client = client();
    let request = client.read_allocation("30cd7ef8-cd5c-e950-2ce5-e512fdcdd551");
    assert_eq!(
        request,
        Request {
            method: Method::Get,
            url: "http://127.0.0.1:4646/v1/allocation/30cd7ef8-cd5c-e950-2ce5-e512fdcdd551"
                .to_string(),
            token: "".to_string(),
            body: None,
        }
    );
}

#[test]
fn job_test_read_allocation() {
    let client = NomadClient::new("http://127.0.0.1:4646".to_string(), "s3cr3t".to_string());
    let request = client.read_allocation("30cd7ef8-cd5c-e950-2ce5-e512fdcdd551");
    assert_eq!(request.token, "s3cr3t");
    assert_eq!(TOKEN_HEADER, "X-Nomad-Token");
    let allocation = NomadClient::read_allocation_response("alloc not found");
    println!("{:?}", &allocation);
    assert_eq!(
        allocation,
        Err(Failure { reason: DecodeError::Syntax, body: "alloc not found".to_string() })
    );
}

#[test]
fn client_test_dispatch_job() {
    let client = client();
    let payload = None;
    let meta = vec![
        ("numpire_image".to_string(), "localhost:5000/agridos-worker".to_string()),
        ("numpire_node_id".to_string(), "1".to_string()),
    ];
    let dispatch_result = client.dispatch_job("numpire-worker-gpu", payload, meta);
    println!("{:?}", &dispatch_result);
    let request = dispatch_result.unwrap();
    assert_eq!(request.method, Method::Post);
    assert_eq!(request.url, "http://127.0.0.1:4646/v1/job/numpire-worker-gpu/dispatch");
    assert_eq!(
        request.body.unwrap(),
        r#"{"Payload":"","Meta":{"numpire_image":"localhost:5000/agridos-worker","numpire_node_id":"1"}}"#
    );
}

#[test]
fn job_test_dispatch_job() {
    let response = NomadClient::dispatch_job_response(
        r#"{"Index":13,"JobCreateIndex":12,"EvalCreateIndex":13,"EvalID":"e5f55fac-bc69-119d-528a-1fc7ade5e02c","DispatchedJobID":"numpire-worker-gpu/dispatch-1485408778-81644024"}"#,
    );
    println!("{:?}", &response);
    let response = response.unwrap();
    assert_eq!(response.index, 13);
    assert_eq!(response.job_create_index, Some(12));
    assert_eq!(response.eval_create_index, Some(13));
    assert_eq!(response.eval_id, None);
    assert_eq!(response.dispatched_job_id, "numpire-worker-gpu/dispatch-1485408778-81644024");
}

#[test]
fn dispatch_job3() {
    let client = client();
    let payload = None;
    let meta = vec![("numpire_image".to_string(), "localhost:5000/numpire-rl-agent".to_string())];
    let dispatch_result = client.dispatch_job("numpire-agent", payload, meta);
    println!("{:?}", &dispatch_result);
    let request = dispatch_result.unwrap();
    assert_eq!(request.url, "http://127.0.0.1:4646/v1/job/numpire-agent/dispatch");
    assert_eq!(
        request.body.unwrap(),
        r#"{"Payload":"","Meta":{"numpire_image":"localhost:5000/numpire-rl-agent"}}"#
    );
}

#[test]
fn dispatch_metadata_passes_through() {
    let meta = vec![("a".to_string(), "1".to_string()), ("b".to_string(), "2".to_string())];
    let body = NomadClient::dispatch_body(None, meta.clone());
    assert_eq!(body, DispatchJobRequest { payload: "".to_string(), meta: meta.clone() });
    let request = client().dispatch_job("example", None, meta).unwrap();
    assert_eq!(request.body.unwrap(), r#"{"Payload":"","Meta":{"a":"1","b":"2"}}"#);
}

#[test]
fn dispatch_carries_the_payload_as_base64() {
    let request = client().dispatch_job("j", Some(b"hi".to_vec()), Vec::new()).unwrap();
    assert_eq!(request.body.unwrap(), r#"{"Payload":"aGk=","Meta":{}}"#);
    let body = NomadClient::dispatch_body(Some(vec![0xfb, 0xff, 0xfe]), Vec::new());
    assert_eq!(body.payload, "+//+");
    let body = NomadClient::dispatch_body(Some(Vec::new()), Vec::new());
    assert_eq!(body.payload, "");
    // The size is the scheduler's to judge: more than 16 KiB still goes out.
    let request = client().dispatch_job("j", Some(vec![0u8; 16385]), Vec::new()).unwrap();
    assert_eq!(request.body.unwrap().len(), r#"{"Payload":"","Meta":{}}"#.len() + 21848);
}

#[test]
fn dispatch_refuses_a_key_given_twice() {
    let meta = vec![
        ("a".to_string(), "1".to_string()),
        ("b".to_string(), "2".to_string()),
        ("a".to_string(), "3".to_string()),
    ];
    assert_eq!(client().dispatch_job("example", None, meta), Err(EncodeError::DuplicateName));
}

#[test]
fn parse_job() {
    let client = client();
    let hcl_file = "job \"worker\" {\n  type = \"batch\"\n}\n";
    let request = client.parse_job(hcl_file, true);
    assert_eq!(request.method, Method::Post);
    assert_eq!(request.url, "http://127.0.0.1:4646/v1/jobs/parse");
    assert_eq!(
        request.body.unwrap(),
        r#"{"JobHCL":"job \"worker\" {\n  type = \"batch\"\n}\n","canonicalize":true}"#
    );
    let job = NomadClient::parse_job_response(&job_text("worker", ""));
    println!("{:?}", &job);
    assert!(job.is_ok());
}

#[test]
fn create_job() {
    let client = client();
    let job = NomadClient::parse_job_response(&job_text("worker", ""));
    assert!(job.is_ok());
    let request = client.create_job(&job.unwrap()).unwrap();
    assert_eq!(request.method, Method::Post);
    assert_eq!(request.url, "http://127.0.0.1:4646/v1/jobs");
    let body = request.body.unwrap();
    assert!(body.starts_with(r#"{"Job":{"Affinities":null,"AllAtOnce":null,"#));
    assert!(body.contains(r#""ID":"worker""#));
    assert!(body.contains(r#""Status":"""#));
    let resp = NomadClient::create_job_response(
        r#"{"EvalID":"d092fdc0-e1fd-2536-67d8-43af8ca798ac","EvalCreateIndex":35,"JobModifyIndex":34,"Warnings":"","Index":35,"LastContact":0,"KnownLeader":false}"#,
    );
    println!("{:?}", &resp);
    assert!(resp.is_ok());
    let resp = resp.unwrap();
    assert_eq!(resp.eval_id, "d092fdc0-e1fd-2536-67d8-43af8ca798ac");
    assert_eq!(resp.job_modify_index, 34);
    assert_eq!(resp.warnings, "");
    assert!(!resp.known_leader);
}

#[test]
fn create_job_response_needs_every_field() {
    let resp = NomadClient::create_job_response(
        r#"{"EvalID":"d092fdc0","EvalCreateIndex":35,"JobModifyIndex":34}"#,
    );
    assert_eq!(resp.unwrap_err().reason, DecodeError::MissingField);
}

#[test]
fn stopping_one_job_leaves_the_others_as_they_were() {
    let client = client();
    let body = format!(
        "[{},{},{}]",
        job_text("x", "running"),
        job_text("y", "running"),
        job_text("z", "pending")
    );
    let jobs: Vec<Job> = NomadClient::list_jobs_response(&body).unwrap();
    let ids: Vec<&str> = jobs.iter().map(|j| j.id.as_str()).collect();
    assert_eq!(ids, vec!["x", "y", "z"]);
    let before = jobs.clone();

    let request = client.stop_job(&jobs[1].id);
    assert_eq!(request.method, Method::Delete);
    assert_eq!(request.url, "http://127.0.0.1:4646/v1/job/y");
    let stopped = NomadClient::stop_job_response(
        r#"{"EvalID":"d092fdc0-e1fd-2536-67d8-43af8ca798ac","EvalCreateIndex":35,"JobModifyIndex":34}"#,
    )
    .unwrap();
    assert!(!stopped.eval_id.is_empty());
    assert_eq!(stopped.eval_create_index, 35);
    assert_eq!(stopped.job_modify_index, 34);

    assert_eq!(jobs[0], before[0]);
    assert_eq!(jobs[2], before[2]);
    assert_eq!(jobs[0].status, RunningStatus::Running);
    assert_eq!(jobs[2].status, RunningStatus::Pending);
}

#[test]
fn reading_an_allocation_by_a_bad_identifier_fails() {
    let client = client();
    let request = client.read_allocation("not-a-uuid");
    assert_eq!(request.url, "http://127.0.0.1:4646/v1/allocation/not-a-uuid");
    // What the scheduler answers to an identifier that is none.
    let failure = NomadClient::read_allocation_response("must be a 36-char UUID").unwrap_err();
    assert_eq!(failure.reason, DecodeError::Syntax);
    assert_eq!(failure.body, "must be a 36-char UUID");
    let reason = |body: &str| NomadClient::read_allocation_response(body).unwrap_err().reason;
    assert_eq!(reason(""), DecodeError::Syntax);
    assert_eq!(reason("{}"), DecodeError::MissingField);
    assert_eq!(reason("null"), DecodeError::TypeMismatch);
    assert_eq!(reason("[]"), DecodeError::TypeMismatch);
}

fn shared_between_threads<T: Send + Sync + Clone>(_: &T) {}

#[test]
fn a_client_can_be_shared_and_is_never_changed() {
    let client = NomadClient::new("http://127.0.0.1:4646".to_string(), "s3cr3t".to_string());
    shared_between_threads(&client);
    let first = client.list_jobs();
    let copy = client.clone();
    let _ = client.stop_job("x");
    let _ = client.dispatch_job("x", None, Vec::new());
    // Every request carries the one credential, whatever was asked before.
    assert_eq!(client.list_jobs(), first);
    assert_eq!(copy.list_jobs(), first);
    assert_eq!(client.read_allocation("a").token, "s3cr3t");
    assert_eq!(client.parse_job("", false).token, "s3cr3t");
    assert_eq!(client.create_job(&Job::default()).unwrap().token, "s3cr3t");
}

#[test]
fn a_job_that_was_parsed_can_be_registered() {
    let body = r#"{"ID":"worker","Name":"worker","Type":"batch","Status":"","Priority":50,"Stop":false,"CreateIndex":0,"ModifyIndex":0,"JobModifyIndex":0,"Meta":{"ratio":0.75,"big":12345678901234567890},"Constraints":[{"LTarget":"a","RTarget":"b","Operand":"="}]}"#;
    let job = NomadClient::parse_job_response(body).unwrap();
    let request = client().create_job(&job).unwrap();
    let text = request.body.unwrap();
    assert!(text.contains(r#""Meta":{"ratio":0.75,"big":12345678901234567890}"#));
    assert!(text.contains(r#""Constraints":[{"LTarget":"a","RTarget":"b","Operand":"="}]"#));
    // A job made by hand with a name twice in an untyped tree is refused.
    let mut broken = job.clone();
    broken.meta = Some(nomad_api::json::Json::Object(vec![
        ("a".to_string(), nomad_api::json::Json::Null),
        ("a".to_string(), nomad_api::json::Json::Null),
    ]));
    assert_eq!(client().create_job(&broken), Err(EncodeError::DuplicateName));
}

#[test]
fn the_error_of_the_scheduler_is_handed_on_as_it_came() {
    let stop = client().stop_job("nope");
    assert_eq!(stop.url, "http://127.0.0.1:4646/v1/job/nope");
    assert_eq!(
        NomadClient::stop_job_response("job not found"),
        Err(Failure { reason: DecodeError::Syntax, body: "job not found".to_string() })
    );
    let text = "error parsing job: input.hcl:1,6-6: Unclosed configuration block; \"job {\"\n";
    let _ = client().parse_job("job {", true);
    assert_eq!(
        NomadClient::parse_job_response(text),
        Err(Failure { reason: DecodeError::Syntax, body: text.to_string() })
    );
    // An error that is JSON, but no answer to the question.
    let failure = NomadClient::stop_job_response(r#"{"error":"job not found"}"#).unwrap_err();
    assert_eq!(failure.reason, DecodeError::MissingField);
    assert_eq!(failure.body, r#"{"error":"job not found"}"#);
    let failure = NomadClient::list_jobs_response("Permission denied").unwrap_err();
    assert_eq!(failure.body, "Permission denied");
    let failure = NomadClient::list_job_allocations_response("{}").unwrap_err();
    assert_eq!((failure.reason, failure.body.as_str()), (DecodeError::TypeMismatch, "{}"));
    let failure = NomadClient::dispatch_job_response("payload too large").unwrap_err();
    assert_eq!(failure.body, "payload too large");
    let failure = NomadClient::create_job_response("1 error occurred").unwrap_err();
    assert_eq!(failure.body, "1 error occurred");
    assert_eq!(read_response::<i64>("7"), Ok(7));
    assert_eq!(
        read_response::<i64>("seven"),
        Err(Failure { reason: DecodeError::Syntax, body: "seven".to_string() })
    );
}

#[test]
fn a_status_is_registered_in_the_word_it_was_read_in() {
    for word in ["", "running", "pending", "dead"] {
        let job = NomadClient::parse_job_response(&job_text("worker", word)).unwrap();
        let body = client().create_job(&job).unwrap().body.unwrap();
        assert!(body.contains(&format!(r#""Status":"{}","#, word)), "{:?}: {}", word, body);
    }
}
