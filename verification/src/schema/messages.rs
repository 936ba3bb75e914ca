//! The wire schema of request and response bodies.

use vstd::prelude::*;
use crate::jobs::{
    CreateJobRequest, CreateJobRequestView, CreateJobResponse, CreateJobResponseView,
    DispatchJobRequest, DispatchJobRequestView, DispatchJobResponse, DispatchJobResponseView, Job,
    JobStopResponse, JobStopResponseView, ParseJobPayload, ParseJobPayloadView,
};
use crate::json::{members_view, Json, JsonView};
use crate::text::{lemma_writable_empty, lemma_writable_object, lemma_writable_push, writable};
use crate::wire::{
    field, lemma_field_round_trip, lemma_field_writable, lemma_lookup_empty, lemma_lookup_push,
    lookup, put, spec_field, DecodeError, Wire,
};

verus! {

/// How the names of the fields of a [`DispatchJobRequest`] are spelled: of each its length
/// and, where another is as long, a letter in which the two differ.
proof fn lemma_dispatch_job_request_names()
    ensures
        "Payload"@.len() == 7,
        "Meta"@.len() == 4,
{
    reveal_strlit("Payload");
    reveal_strlit("Meta");
}

/// Each member of a written [`DispatchJobRequest`] is found under its name.
proof fn lemma_dispatch_job_request_members(x: DispatchJobRequestView)
    ensures
        lookup(DispatchJobRequest::spec_encode(x)->Object_0, "Payload"@) == Some(
            String::spec_encode(x.payload),
        ),
        lookup(DispatchJobRequest::spec_encode(x)->Object_0, "Meta"@) == Some(
            <Vec<(String, String)>>::spec_encode(x.meta),
        ),
{
    broadcast use {lemma_lookup_push, lemma_lookup_empty};

    lemma_dispatch_job_request_names();
}

/// A [`DispatchJobRequest`] is written as a tree that can be written as text where each of
/// its fields is.
proof fn lemma_dispatch_job_request_written(x: DispatchJobRequestView)
    requires
        writable(String::spec_encode(x.payload)),
        writable(<Vec<(String, String)>>::spec_encode(x.meta)),
    ensures
        writable(DispatchJobRequest::spec_encode(x)),
{
    broadcast use {
        lemma_writable_push,
        lemma_writable_empty,
        lemma_lookup_push,
        lemma_lookup_empty,
    };

    lemma_dispatch_job_request_names();
    lemma_writable_object(DispatchJobRequest::spec_encode(x)->Object_0);
}

impl Wire for DispatchJobRequest {
    open spec fn spec_decode(v: JsonView) -> Result<DispatchJobRequestView, DecodeError> {
        if let Err(e) = spec_field::<String>(v, "Payload"@) {
            Err(e)
        } else if let Err(e) = spec_field::<Vec<(String, String)>>(v, "Meta"@) {
            Err(e)
        } else {
            Ok(
                DispatchJobRequestView {
                    payload: spec_field::<String>(v, "Payload"@)->Ok_0,
                    meta: spec_field::<Vec<(String, String)>>(v, "Meta"@)->Ok_0,
                },
            )
        }
    }

    open spec fn spec_absent() -> Result<DispatchJobRequestView, DecodeError> {
        Err(DecodeError::MissingField)
    }

    open spec fn spec_encode(x: DispatchJobRequestView) -> JsonView {
        JsonView::Object(
            Seq::empty()
                .push(("Payload"@, String::spec_encode(x.payload)))
                .push(("Meta"@, <Vec<(String, String)>>::spec_encode(x.meta))),
        )
    }

    fn decode(v: &Json) -> (r: Result<DispatchJobRequest, DecodeError>) {
        let payload = field::<String>(v, "Payload")?;
        let meta = field::<Vec<(String, String)>>(v, "Meta")?;
        Ok(DispatchJobRequest { payload, meta })
    }

    fn absent() -> (r: Result<DispatchJobRequest, DecodeError>) {
        Err(DecodeError::MissingField)
    }

    fn encode(&self) -> (r: Json) {
        let mut members: Vec<(String, Json)> = Vec::new();
        proof {
            assert(members_view(members@) =~= Seq::empty());
        }
        put(&mut members, "Payload", self.payload.encode());
        put(&mut members, "Meta", self.meta.encode());
        Json::Object(members)
    }

    proof fn lemma_round_trip(v: JsonView) {
        let x = Self::spec_decode(v)->Ok_0;
        let w = Self::spec_encode(x);
        lemma_dispatch_job_request_members(x);
        lemma_field_round_trip::<String>(v, "Payload"@);
        lemma_field_round_trip::<Vec<(String, String)>>(v, "Meta"@);
        assert(spec_field::<String>(w, "Payload"@) == spec_field::<String>(v, "Payload"@));
        assert(spec_field::<Vec<(String, String)>>(w, "Meta"@)
            == spec_field::<Vec<(String, String)>>(v, "Meta"@));
    }

    proof fn lemma_absent_round_trip() {
    }

    proof fn lemma_writable(v: JsonView) {
        lemma_field_writable::<String>(v, "Payload"@);
        lemma_field_writable::<Vec<(String, String)>>(v, "Meta"@);
        lemma_dispatch_job_request_written(Self::spec_decode(v)->Ok_0);
    }
}

/// How the names of the fields of a [`DispatchJobResponse`] are spelled: of each its length
/// and, where another is as long, a letter in which the two differ.
proof fn lemma_dispatch_job_response_names()
    ensures
        "Index"@.len() == 5,
        "JobCreateIndex"@.len() == 14,
        "EvalCreateIndex"@.len() == 15 && "EvalCreateIndex"@[0] == 'E',
        "eval_id"@.len() == 7,
        "DispatchedJobID"@.len() == 15 && "DispatchedJobID"@[0] == 'D',
{
    reveal_strlit("Index");
    reveal_strlit("JobCreateIndex");
    reveal_strlit("EvalCreateIndex");
    reveal_strlit("eval_id");
    reveal_strlit("DispatchedJobID");
}

/// Each member of a written [`DispatchJobResponse`] is found under its name.
proof fn lemma_dispatch_job_response_members(x: DispatchJobResponseView)
    ensures
        lookup(DispatchJobResponse::spec_encode(x)->Object_0, "Index"@) == Some(
            u32::spec_encode(x.index),
        ),
        lookup(DispatchJobResponse::spec_encode(x)->Object_0, "JobCreateIndex"@) == Some(
            <Option<u32>>::spec_encode(x.job_create_index),
        ),
        lookup(DispatchJobResponse::spec_encode(x)->Object_0, "EvalCreateIndex"@) == Some(
            <Option<u32>>::spec_encode(x.eval_create_index),
        ),
        lookup(DispatchJobResponse::spec_encode(x)->Object_0, "eval_id"@) == Some(
            <Option<String>>::spec_encode(x.eval_id),
        ),
        lookup(DispatchJobResponse::spec_encode(x)->Object_0, "DispatchedJobID"@) == Some(
            String::spec_encode(x.dispatched_job_id),
        ),
{
    broadcast use {lemma_lookup_push, lemma_lookup_empty};

    lemma_dispatch_job_response_names();
}

/// A [`DispatchJobResponse`] is written as a tree that can be written as text where each of
/// its fields is.
proof fn lemma_dispatch_job_response_written(x: DispatchJobResponseView)
    requires
        writable(u32::spec_encode(x.index)),
        writable(<Option<u32>>::spec_encode(x.job_create_index)),
        writable(<Option<u32>>::spec_encode(x.eval_create_index)),
        writable(<Option<String>>::spec_encode(x.eval_id)),
        writable(String::spec_encode(x.dispatched_job_id)),
    ensures
        writable(DispatchJobResponse::spec_encode(x)),
{
    broadcast use {
        lemma_writable_push,
        lemma_writable_empty,
        lemma_lookup_push,
        lemma_lookup_empty,
    };

    lemma_dispatch_job_response_names();
    lemma_writable_object(DispatchJobResponse::spec_encode(x)->Object_0);
}

impl Wire for DispatchJobResponse {
    open spec fn spec_decode(v: JsonView) -> Result<DispatchJobResponseView, DecodeError> {
        if let Err(e) = spec_field::<u32>(v, "Index"@) {
            Err(e)
        } else if let Err(e) = spec_field::<Option<u32>>(v, "JobCreateIndex"@) {
            Err(e)
        } else if let Err(e) = spec_field::<Option<u32>>(v, "EvalCreateIndex"@) {
            Err(e)
        } else if let Err(e) = spec_field::<Option<String>>(v, "eval_id"@) {
            Err(e)
        } else if let Err(e) = spec_field::<String>(v, "DispatchedJobID"@) {
            Err(e)
        } else {
            Ok(
                DispatchJobResponseView {
                    index: spec_field::<u32>(v, "Index"@)->Ok_0,
                    job_create_index: spec_field::<Option<u32>>(v, "JobCreateIndex"@)->Ok_0,
                    eval_create_index: spec_field::<Option<u32>>(v, "EvalCreateIndex"@)->Ok_0,
                    eval_id: spec_field::<Option<String>>(v, "eval_id"@)->Ok_0,
                    dispatched_job_id: spec_field::<String>(v, "DispatchedJobID"@)->Ok_0,
                },
            )
        }
    }

    open spec fn spec_absent() -> Result<DispatchJobResponseView, DecodeError> {
        Err(DecodeError::MissingField)
    }

    open spec fn spec_encode(x: DispatchJobResponseView) -> JsonView {
        JsonView::Object(
            Seq::empty()
                .push(("Index"@, u32::spec_encode(x.index)))
                .push(("JobCreateIndex"@, <Option<u32>>::spec_encode(x.job_create_index)))
                .push(("EvalCreateIndex"@, <Option<u32>>::spec_encode(x.eval_create_index)))
                .push(("eval_id"@, <Option<String>>::spec_encode(x.eval_id)))
                .push(("DispatchedJobID"@, String::spec_encode(x.dispatched_job_id))),
        )
    }

    fn decode(v: &Json) -> (r: Result<DispatchJobResponse, DecodeError>) {
        let index = field::<u32>(v, "Index")?;
        let job_create_index = field::<Option<u32>>(v, "JobCreateIndex")?;
        let eval_create_index = field::<Option<u32>>(v, "EvalCreateIndex")?;
        let eval_id = field::<Option<String>>(v, "eval_id")?;
        let dispatched_job_id = field::<String>(v, "DispatchedJobID")?;
        Ok(DispatchJobResponse {
            index,
            job_create_index,
            eval_create_index,
            eval_id,
            dispatched_job_id,
        })
    }

    fn absent() -> (r: Result<DispatchJobResponse, DecodeError>) {
        Err(DecodeError::MissingField)
    }

    fn encode(&self) -> (r: Json) {
        let mut members: Vec<(String, Json)> = Vec::new();
        proof {
            assert(members_view(members@) =~= Seq::empty());
        }
        put(&mut members, "Index", self.index.encode());
        put(&mut members, "JobCreateIndex", self.job_create_index.encode());
        put(&mut members, "EvalCreateIndex", self.eval_create_index.encode());
        put(&mut members, "eval_id", self.eval_id.encode());
        put(&mut members, "DispatchedJobID", self.dispatched_job_id.encode());
        Json::Object(members)
    }

    proof fn lemma_round_trip(v: JsonView) {
        let x = Self::spec_decode(v)->Ok_0;
        let w = Self::spec_encode(x);
        lemma_dispatch_job_response_members(x);
        lemma_field_round_trip::<u32>(v, "Index"@);
        lemma_field_round_trip::<Option<u32>>(v, "JobCreateIndex"@);
        lemma_field_round_trip::<Option<u32>>(v, "EvalCreateIndex"@);
        lemma_field_round_trip::<Option<String>>(v, "eval_id"@);
        lemma_field_round_trip::<String>(v, "DispatchedJobID"@);
        assert(spec_field::<u32>(w, "Index"@) == spec_field::<u32>(v, "Index"@));
        assert(spec_field::<Option<u32>>(w, "JobCreateIndex"@)
            == spec_field::<Option<u32>>(v, "JobCreateIndex"@));
        assert(spec_field::<Option<u32>>(w, "EvalCreateIndex"@)
            == spec_field::<Option<u32>>(v, "EvalCreateIndex"@));
        assert(spec_field::<Option<String>>(w, "eval_id"@)
            == spec_field::<Option<String>>(v, "eval_id"@));
        assert(spec_field::<String>(w, "DispatchedJobID"@)
            == spec_field::<String>(v, "DispatchedJobID"@));
    }

    proof fn lemma_absent_round_trip() {
    }

    proof fn lemma_writable(v: JsonView) {
        lemma_field_writable::<u32>(v, "Index"@);
        lemma_field_writable::<Option<u32>>(v, "JobCreateIndex"@);
        lemma_field_writable::<Option<u32>>(v, "EvalCreateIndex"@);
        lemma_field_writable::<Option<String>>(v, "eval_id"@);
        lemma_field_writable::<String>(v, "DispatchedJobID"@);
        lemma_dispatch_job_response_written(Self::spec_decode(v)->Ok_0);
    }
}

/// How the names of the fields of a [`JobStopResponse`] are spelled: of each its length
/// and, where another is as long, a letter in which the two differ.
proof fn lemma_job_stop_response_names()
    ensures
        "EvalID"@.len() == 6,
        "EvalCreateIndex"@.len() == 15,
        "JobModifyIndex"@.len() == 14,
{
    reveal_strlit("EvalID");
    reveal_strlit("EvalCreateIndex");
    reveal_strlit("JobModifyIndex");
}

/// Each member of a written [`JobStopResponse`] is found under its name.
proof fn lemma_job_stop_response_members(x: JobStopResponseView)
    ensures
        lookup(JobStopResponse::spec_encode(x)->Object_0, "EvalID"@) == Some(
            String::spec_encode(x.eval_id),
        ),
        lookup(JobStopResponse::spec_encode(x)->Object_0, "EvalCreateIndex"@) == Some(
            u32::spec_encode(x.eval_create_index),
        ),
        lookup(JobStopResponse::spec_encode(x)->Object_0, "JobModifyIndex"@) == Some(
            u32::spec_encode(x.job_modify_index),
        ),
{
    broadcast use {lemma_lookup_push, lemma_lookup_empty};

    lemma_job_stop_response_names();
}

/// A [`JobStopResponse`] is written as a tree that can be written as text where each of
/// its fields is.
proof fn lemma_job_stop_response_written(x: JobStopResponseView)
    requires
        writable(String::spec_encode(x.eval_id)),
        writable(u32::spec_encode(x.eval_create_index)),
        writable(u32::spec_encode(x.job_modify_index)),
    ensures
        writable(JobStopResponse::spec_encode(x)),
{
    broadcast use {
        lemma_writable_push,
        lemma_writable_empty,
        lemma_lookup_push,
        lemma_lookup_empty,
    };

    lemma_job_stop_response_names();
    lemma_writable_object(JobStopResponse::spec_encode(x)->Object_0);
}

impl Wire for JobStopResponse {
    open spec fn spec_decode(v: JsonView) -> Result<JobStopResponseView, DecodeError> {
        if let Err(e) = spec_field::<String>(v, "EvalID"@) {
            Err(e)
        } else if let Err(e) = spec_field::<u32>(v, "EvalCreateIndex"@) {
            Err(e)
        } else if let Err(e) = spec_field::<u32>(v, "JobModifyIndex"@) {
            Err(e)
        } else {
            Ok(
                JobStopResponseView {
                    eval_id: spec_field::<String>(v, "EvalID"@)->Ok_0,
                    eval_create_index: spec_field::<u32>(v, "EvalCreateIndex"@)->Ok_0,
                    job_modify_index: spec_field::<u32>(v, "JobModifyIndex"@)->Ok_0,
                },
            )
        }
    }

    open spec fn spec_absent() -> Result<JobStopResponseView, DecodeError> {
        Err(DecodeError::MissingField)
    }

    open spec fn spec_encode(x: JobStopResponseView) -> JsonView {
        JsonView::Object(
            Seq::empty()
                .push(("EvalID"@, String::spec_encode(x.eval_id)))
                .push(("EvalCreateIndex"@, u32::spec_encode(x.eval_create_index)))
                .push(("JobModifyIndex"@, u32::spec_encode(x.job_modify_index))),
        )
    }

    fn decode(v: &Json) -> (r: Result<JobStopResponse, DecodeError>) {
        let eval_id = field::<String>(v, "EvalID")?;
        let eval_create_index = field::<u32>(v, "EvalCreateIndex")?;
        let job_modify_index = field::<u32>(v, "JobModifyIndex")?;
        Ok(JobStopResponse { eval_id, eval_create_index, job_modify_index })
    }

    fn absent() -> (r: Result<JobStopResponse, DecodeError>) {
        Err(DecodeError::MissingField)
    }

    fn encode(&self) -> (r: Json) {
        let mut members: Vec<(String, Json)> = Vec::new();
        proof {
            assert(members_view(members@) =~= Seq::empty());
        }
        put(&mut members, "EvalID", self.eval_id.encode());
        put(&mut members, "EvalCreateIndex", self.eval_create_index.encode());
        put(&mut members, "JobModifyIndex", self.job_modify_index.encode());
        Json::Object(members)
    }

    proof fn lemma_round_trip(v: JsonView) {
        let x = Self::spec_decode(v)->Ok_0;
        let w = Self::spec_encode(x);
        lemma_job_stop_response_members(x);
        lemma_field_round_trip::<String>(v, "EvalID"@);
        lemma_field_round_trip::<u32>(v, "EvalCreateIndex"@);
        lemma_field_round_trip::<u32>(v, "JobModifyIndex"@);
        assert(spec_field::<String>(w, "EvalID"@) == spec_field::<String>(v, "EvalID"@));
        assert(spec_field::<u32>(w, "EvalCreateIndex"@)
            == spec_field::<u32>(v, "EvalCreateIndex"@));
        assert(spec_field::<u32>(w, "JobModifyIndex"@) == spec_field::<u32>(v, "JobModifyIndex"@));
    }

    proof fn lemma_absent_round_trip() {
    }

    proof fn lemma_writable(v: JsonView) {
        lemma_field_writable::<String>(v, "EvalID"@);
        lemma_field_writable::<u32>(v, "EvalCreateIndex"@);
        lemma_field_writable::<u32>(v, "JobModifyIndex"@);
        lemma_job_stop_response_written(Self::spec_decode(v)->Ok_0);
    }
}

/// How the names of the fields of a [`CreateJobRequest`] are spelled: of each its length
/// and, where another is as long, a letter in which the two differ.
proof fn lemma_create_job_request_names()
    ensures
        "Job"@.len() == 3,
{
    reveal_strlit("Job");
}

/// Each member of a written [`CreateJobRequest`] is found under its name.
proof fn lemma_create_job_request_members(x: CreateJobRequestView)
    ensures
        lookup(CreateJobRequest::spec_encode(x)->Object_0, "Job"@) == Some(
            Job::spec_encode(x.job),
        ),
{
    broadcast use {lemma_lookup_push, lemma_lookup_empty};

    lemma_create_job_request_names();
}

/// A [`CreateJobRequest`] is written as a tree that can be written as text where each of
/// its fields is.
proof fn lemma_create_job_request_written(x: CreateJobRequestView)
    requires
        writable(Job::spec_encode(x.job)),
    ensures
        writable(CreateJobRequest::spec_encode(x)),
{
    broadcast use {
        lemma_writable_push,
        lemma_writable_empty,
        lemma_lookup_push,
        lemma_lookup_empty,
    };

    lemma_create_job_request_names();
    lemma_writable_object(CreateJobRequest::spec_encode(x)->Object_0);
}

impl Wire for CreateJobRequest {
    open spec fn spec_decode(v: JsonView) -> Result<CreateJobRequestView, DecodeError> {
        if let Err(e) = spec_field::<Job>(v, "Job"@) {
            Err(e)
        } else {
            Ok(
                CreateJobRequestView {
                    job: spec_field::<Job>(v, "Job"@)->Ok_0,
                },
            )
        }
    }

    open spec fn spec_absent() -> Result<CreateJobRequestView, DecodeError> {
        Err(DecodeError::MissingField)
    }

    open spec fn spec_encode(x: CreateJobRequestView) -> JsonView {
        JsonView::Object(
            Seq::empty()
                .push(("Job"@, Job::spec_encode(x.job))),
        )
    }

    fn decode(v: &Json) -> (r: Result<CreateJobRequest, DecodeError>) {
        let job = field::<Job>(v, "Job")?;
        Ok(CreateJobRequest { job })
    }

    fn absent() -> (r: Result<CreateJobRequest, DecodeError>) {
        Err(DecodeError::MissingField)
    }

    fn encode(&self) -> (r: Json) {
        let mut members: Vec<(String, Json)> = Vec::new();
        proof {
            assert(members_view(members@) =~= Seq::empty());
        }
        put(&mut members, "Job", self.job.encode());
        Json::Object(members)
    }

    proof fn lemma_round_trip(v: JsonView) {
        let x = Self::spec_decode(v)->Ok_0;
        let w = Self::spec_encode(x);
        lemma_create_job_request_members(x);
        lemma_field_round_trip::<Job>(v, "Job"@);
        assert(spec_field::<Job>(w, "Job"@) == spec_field::<Job>(v, "Job"@));
    }

    proof fn lemma_absent_round_trip() {
    }

    proof fn lemma_writable(v: JsonView) {
        lemma_field_writable::<Job>(v, "Job"@);
        lemma_create_job_request_written(Self::spec_decode(v)->Ok_0);
    }
}

/// How the names of the fields of a [`CreateJobResponse`] are spelled: of each its length
/// and, where another is as long, a letter in which the two differ.
proof fn lemma_create_job_response_names()
    ensures
        "EvalID"@.len() == 6,
        "EvalCreateIndex"@.len() == 15,
        "JobModifyIndex"@.len() == 14,
        "Warnings"@.len() == 8,
        "Index"@.len() == 5,
        "LastContact"@.len() == 11 && "LastContact"@[0] == 'L',
        "KnownLeader"@.len() == 11 && "KnownLeader"@[0] == 'K',
{
    reveal_strlit("EvalID");
    reveal_strlit("EvalCreateIndex");
    reveal_strlit("JobModifyIndex");
    reveal_strlit("Warnings");
    reveal_strlit("Index");
    reveal_strlit("LastContact");
    reveal_strlit("KnownLeader");
}

/// Each member of a written [`CreateJobResponse`] is found under its name.
proof fn lemma_create_job_response_members(x: CreateJobResponseView)
    ensures
        lookup(CreateJobResponse::spec_encode(x)->Object_0, "EvalID"@) == Some(
            String::spec_encode(x.eval_id),
        ),
        lookup(CreateJobResponse::spec_encode(x)->Object_0, "EvalCreateIndex"@) == Some(
            i64::spec_encode(x.eval_create_index),
        ),
        lookup(CreateJobResponse::spec_encode(x)->Object_0, "JobModifyIndex"@) == Some(
            i64::spec_encode(x.job_modify_index),
        ),
        lookup(CreateJobResponse::spec_encode(x)->Object_0, "Warnings"@) == Some(
            String::spec_encode(x.warnings),
        ),
        lookup(CreateJobResponse::spec_encode(x)->Object_0, "Index"@) == Some(
            i64::spec_encode(x.index),
        ),
        lookup(CreateJobResponse::spec_encode(x)->Object_0, "LastContact"@) == Some(
            i64::spec_encode(x.last_contact),
        ),
        lookup(CreateJobResponse::spec_encode(x)->Object_0, "KnownLeader"@) == Some(
            bool::spec_encode(x.known_leader),
        ),
{
    broadcast use {lemma_lookup_push, lemma_lookup_empty};

    lemma_create_job_response_names();
}

/// A [`CreateJobResponse`] is written as a tree that can be written as text where each of
/// its fields is.
proof fn lemma_create_job_response_written(x: CreateJobResponseView)
    requires
        writable(String::spec_encode(x.eval_id)),
        writable(i64::spec_encode(x.eval_create_index)),
        writable(i64::spec_encode(x.job_modify_index)),
        writable(String::spec_encode(x.warnings)),
        writable(i64::spec_encode(x.index)),
        writable(i64::spec_encode(x.last_contact)),
        writable(bool::spec_encode(x.known_leader)),
    ensures
        writable(CreateJobResponse::spec_encode(x)),
{
    broadcast use {
        lemma_writable_push,
        lemma_writable_empty,
        lemma_lookup_push,
        lemma_lookup_empty,
    };

    lemma_create_job_response_names();
    lemma_writable_object(CreateJobResponse::spec_encode(x)->Object_0);
}

impl Wire for CreateJobResponse {
    open spec fn spec_decode(v: JsonView) -> Result<CreateJobResponseView, DecodeError> {
        if let Err(e) = spec_field::<String>(v, "EvalID"@) {
            Err(e)
        } else if let Err(e) = spec_field::<i64>(v, "EvalCreateIndex"@) {
            Err(e)
        } else if let Err(e) = spec_field::<i64>(v, "JobModifyIndex"@) {
            Err(e)
        } else if let Err(e) = spec_field::<String>(v, "Warnings"@) {
            Err(e)
        } else if let Err(e) = spec_field::<i64>(v, "Index"@) {
            Err(e)
        } else if let Err(e) = spec_field::<i64>(v, "LastContact"@) {
            Err(e)
        } else if let Err(e) = spec_field::<bool>(v, "KnownLeader"@) {
            Err(e)
        } else {
            Ok(
                CreateJobResponseView {
                    eval_id: spec_field::<String>(v, "EvalID"@)->Ok_0,
                    eval_create_index: spec_field::<i64>(v, "EvalCreateIndex"@)->Ok_0,
                    job_modify_index: spec_field::<i64>(v, "JobModifyIndex"@)->Ok_0,
                    warnings: spec_field::<String>(v, "Warnings"@)->Ok_0,
                    index: spec_field::<i64>(v, "Index"@)->Ok_0,
                    last_contact: spec_field::<i64>(v, "LastContact"@)->Ok_0,
                    known_leader: spec_field::<bool>(v, "KnownLeader"@)->Ok_0,
                },
            )
        }
    }

    open spec fn spec_absent() -> Result<CreateJobResponseView, DecodeError> {
        Err(DecodeError::MissingField)
    }

    open spec fn spec_encode(x: CreateJobResponseView) -> JsonView {
        JsonView::Object(
            Seq::empty()
                .push(("EvalID"@, String::spec_encode(x.eval_id)))
                .push(("EvalCreateIndex"@, i64::spec_encode(x.eval_create_index)))
                .push(("JobModifyIndex"@, i64::spec_encode(x.job_modify_index)))
                .push(("Warnings"@, String::spec_encode(x.warnings)))
                .push(("Index"@, i64::spec_encode(x.index)))
                .push(("LastContact"@, i64::spec_encode(x.last_contact)))
                .push(("KnownLeader"@, bool::spec_encode(x.known_leader))),
        )
    }

    fn decode(v: &Json) -> (r: Result<CreateJobResponse, DecodeError>) {
        let eval_id = field::<String>(v, "EvalID")?;
        let eval_create_index = field::<i64>(v, "EvalCreateIndex")?;
        let job_modify_index = field::<i64>(v, "JobModifyIndex")?;
        let warnings = field::<String>(v, "Warnings")?;
        let index = field::<i64>(v, "Index")?;
        let last_contact = field::<i64>(v, "LastContact")?;
        let known_leader = field::<bool>(v, "KnownLeader")?;
        Ok(CreateJobResponse {
            eval_id,
            eval_create_index,
            job_modify_index,
            warnings,
            index,
            last_contact,
            known_leader,
        })
    }

    fn absent() -> (r: Result<CreateJobResponse, DecodeError>) {
        Err(DecodeError::MissingField)
    }

    fn encode(&self) -> (r: Json) {
        let mut members: Vec<(String, Json)> = Vec::new();
        proof {
            assert(members_view(members@) =~= Seq::empty());
        }
        put(&mut members, "EvalID", self.eval_id.encode());
        put(&mut members, "EvalCreateIndex", self.eval_create_index.encode());
        put(&mut members, "JobModifyIndex", self.job_modify_index.encode());
        put(&mut members, "Warnings", self.warnings.encode());
        put(&mut members, "Index", self.index.encode());
        put(&mut members, "LastContact", self.last_contact.encode());
        put(&mut members, "KnownLeader", self.known_leader.encode());
        Json::Object(members)
    }

    proof fn lemma_round_trip(v: JsonView) {
        let x = Self::spec_decode(v)->Ok_0;
        let w = Self::spec_encode(x);
        lemma_create_job_response_members(x);
        lemma_field_round_trip::<String>(v, "EvalID"@);
        lemma_field_round_trip::<i64>(v, "EvalCreateIndex"@);
        lemma_field_round_trip::<i64>(v, "JobModifyIndex"@);
        lemma_field_round_trip::<String>(v, "Warnings"@);
        lemma_field_round_trip::<i64>(v, "Index"@);
        lemma_field_round_trip::<i64>(v, "LastContact"@);
        lemma_field_round_trip::<bool>(v, "KnownLeader"@);
        assert(spec_field::<String>(w, "EvalID"@) == spec_field::<String>(v, "EvalID"@));
        assert(spec_field::<i64>(w, "EvalCreateIndex"@)
            == spec_field::<i64>(v, "EvalCreateIndex"@));
        assert(spec_field::<i64>(w, "JobModifyIndex"@) == spec_field::<i64>(v, "JobModifyIndex"@));
        assert(spec_field::<String>(w, "Warnings"@) == spec_field::<String>(v, "Warnings"@));
        assert(spec_field::<i64>(w, "Index"@) == spec_field::<i64>(v, "Index"@));
        assert(spec_field::<i64>(w, "LastContact"@) == spec_field::<i64>(v, "LastContact"@));
        assert(spec_field::<bool>(w, "KnownLeader"@) == spec_field::<bool>(v, "KnownLeader"@));
    }

    proof fn lemma_absent_round_trip() {
    }

    proof fn lemma_writable(v: JsonView) {
        lemma_field_writable::<String>(v, "EvalID"@);
        lemma_field_writable::<i64>(v, "EvalCreateIndex"@);
        lemma_field_writable::<i64>(v, "JobModifyIndex"@);
        lemma_field_writable::<String>(v, "Warnings"@);
        lemma_field_writable::<i64>(v, "Index"@);
        lemma_field_writable::<i64>(v, "LastContact"@);
        lemma_field_writable::<bool>(v, "KnownLeader"@);
        lemma_create_job_response_written(Self::spec_decode(v)->Ok_0);
    }
}

/// How the names of the fields of a [`ParseJobPayload`] are spelled: of each its length
/// and, where another is as long, a letter in which the two differ.
proof fn lemma_parse_job_payload_names()
    ensures
        "JobHCL"@.len() == 6,
        "canonicalize"@.len() == 12,
{
    reveal_strlit("JobHCL");
    reveal_strlit("canonicalize");
}

/// Each member of a written [`ParseJobPayload`] is found under its name.
proof fn lemma_parse_job_payload_members(x: ParseJobPayloadView)
    ensures
        lookup(ParseJobPayload::spec_encode(x)->Object_0, "JobHCL"@) == Some(
            String::spec_encode(x.job_hcl),
        ),
        lookup(ParseJobPayload::spec_encode(x)->Object_0, "canonicalize"@) == Some(
            bool::spec_encode(x.canonicalize),
        ),
{
    broadcast use {lemma_lookup_push, lemma_lookup_empty};

    lemma_parse_job_payload_names();
}

/// A [`ParseJobPayload`] is written as a tree that can be written as text where each of
/// its fields is.
proof fn lemma_parse_job_payload_written(x: ParseJobPayloadView)
    requires
        writable(String::spec_encode(x.job_hcl)),
        writable(bool::spec_encode(x.canonicalize)),
    ensures
        writable(ParseJobPayload::spec_encode(x)),
{
    broadcast use {
        lemma_writable_push,
        lemma_writable_empty,
        lemma_lookup_push,
        lemma_lookup_empty,
    };

    lemma_parse_job_payload_names();
    lemma_writable_object(ParseJobPayload::spec_encode(x)->Object_0);
}

impl Wire for ParseJobPayload {
    open spec fn spec_decode(v: JsonView) -> Result<ParseJobPayloadView, DecodeError> {
        if let Err(e) = spec_field::<String>(v, "JobHCL"@) {
            Err(e)
        } else if let Err(e) = spec_field::<bool>(v, "canonicalize"@) {
            Err(e)
        } else {
            Ok(
                ParseJobPayloadView {
                    job_hcl: spec_field::<String>(v, "JobHCL"@)->Ok_0,
                    canonicalize: spec_field::<bool>(v, "canonicalize"@)->Ok_0,
                },
            )
        }
    }

    open spec fn spec_absent() -> Result<ParseJobPayloadView, DecodeError> {
        Err(DecodeError::MissingField)
    }

    open spec fn spec_encode(x: ParseJobPayloadView) -> JsonView {
        JsonView::Object(
            Seq::empty()
                .push(("JobHCL"@, String::spec_encode(x.job_hcl)))
                .push(("canonicalize"@, bool::spec_encode(x.canonicalize))),
        )
    }

    fn decode(v: &Json) -> (r: Result<ParseJobPayload, DecodeError>) {
        let job_hcl = field::<String>(v, "JobHCL")?;
        let canonicalize = field::<bool>(v, "canonicalize")?;
        Ok(ParseJobPayload { job_hcl, canonicalize })
    }

    fn absent() -> (r: Result<ParseJobPayload, DecodeError>) {
        Err(DecodeError::MissingField)
    }

    fn encode(&self) -> (r: Json) {
        let mut members: Vec<(String, Json)> = Vec::new();
        proof {
            assert(members_view(members@) =~= Seq::empty());
        }
        put(&mut members, "JobHCL", self.job_hcl.encode());
        put(&mut members, "canonicalize", self.canonicalize.encode());
        Json::Object(members)
    }

    proof fn lemma_round_trip(v: JsonView) {
        let x = Self::spec_decode(v)->Ok_0;
        let w = Self::spec_encode(x);
        lemma_parse_job_payload_members(x);
        lemma_field_round_trip::<String>(v, "JobHCL"@);
        lemma_field_round_trip::<bool>(v, "canonicalize"@);
        assert(spec_field::<String>(w, "JobHCL"@) == spec_field::<String>(v, "JobHCL"@));
        assert(spec_field::<bool>(w, "canonicalize"@) == spec_field::<bool>(v, "canonicalize"@));
    }

    proof fn lemma_absent_round_trip() {
    }

    proof fn lemma_writable(v: JsonView) {
        lemma_field_writable::<String>(v, "JobHCL"@);
        lemma_field_writable::<bool>(v, "canonicalize"@);
        lemma_parse_job_payload_written(Self::spec_decode(v)->Ok_0);
    }
}

} // verus!
