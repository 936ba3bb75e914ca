//! The operations of the scheduler's API, one per endpoint.
//!
//! An operation is one exchange: a request, which [`NomadClient`] builds from
//! the caller's arguments, and a response, whose body the matching
//! `*_response` function reads. What lies between the two, the sending, is
//! the caller's: the library holds no connection and keeps no state. A
//! response is judged by its body alone: a body that is not read as the
//! expected value is a failure, whatever status came with it, and the
//! failure hands the body on as it came, so that what the scheduler said
//! reaches the caller word for word.

use vstd::prelude::*;
use vstd::string::*;
use crate::base64::{base64, encode};
use crate::jobs::{
    Allocation, CreateJobRequest, CreateJobRequestView, CreateJobResponse, DispatchJobRequest,
    DispatchJobRequestView, DispatchJobResponse, Job, JobStopResponse, JobView,
    ListJobAllocationsResponse, ParseJobPayload, ParseJobPayloadView,
};
use crate::json::{members_view, Json, JsonView};
use crate::containers::spec_encode_members;
use crate::text::{
    canonical, canonical_members, decode_text, lemma_canonical_members, lemma_writable_empty,
    lemma_writable_object, lemma_writable_push, render, rendered, spec_decode_text, writable,
    EncodeError,
};
use crate::wire::{
    distinct_keys, lemma_lookup_empty, lemma_lookup_push, lookup, put, DecodeError, Wire,
};

verus! {

/// The name of the header that carries the credential.
pub const TOKEN_HEADER: &'static str = "X-Nomad-Token";

/// The HTTP method of a request.
#[derive(Clone, Copy, PartialEq, Eq, Debug, Structural)]
pub enum Method {
    Get,
    Post,
    Delete,
}

/// A request, ready to be sent: the method, the address, the credential for
/// the [`TOKEN_HEADER`] header and, where the endpoint takes one, the JSON
/// body.
#[derive(Clone, PartialEq, Debug)]
pub struct Request {
    pub method: Method,
    pub url: String,
    pub token: String,
    pub body: Option<String>,
}

/// The address of a scheduler and the credential to present to it.
#[derive(Clone, Debug)]
pub struct NomadClient {
    base_url: String,
    authorization_token: String,
}

/// An answer that was not read as what the operation expects: the reason,
/// and the body as it came.
#[derive(Clone, PartialEq, Debug)]
pub struct Failure {
    pub reason: DecodeError,
    pub body: String,
}

/// Whether `r` is what reading `body` as a `T` gives: the value that the
/// body is read as, or the reason why it is read as none together with the
/// body itself.
pub open spec fn reads<T: Wire>(r: Result<T, Failure>, body: Seq<char>) -> bool {
    match spec_decode_text::<T>(body) {
        Ok(x) => r matches Ok(v) && v.deep_view() == x,
        Err(e) => r matches Err(f) && f.reason == e && f.body@ == body,
    }
}

/// Reads the body of an answer as a `T`. What was read can be written.
pub fn read_response<T: Wire>(body: &str) -> (r: Result<T, Failure>)
    ensures
        reads(r, body@),
        r matches Ok(x) ==> writable(T::spec_encode(x.deep_view())),
{
    match decode_text::<T>(body) {
        Ok(x) => Ok(x),
        Err(reason) => Err(Failure { reason, body: body.to_owned() }),
    }
}

/// The payload of a dispatch as it stands in the body: the base64 text of
/// the bytes given, or the empty text where none were.
pub open spec fn payload_text(payload: Option<Vec<u8>>) -> Seq<char> {
    match payload {
        Some(bytes) => base64(bytes@),
        None => Seq::empty(),
    }
}

/// Two texts in a row.
fn join(a: &str, b: &str) -> (r: String)
    ensures
        r@ == a@ + b@,
{
    let mut r = a.to_owned();
    r.append(b);
    r
}

/// Three texts in a row.
fn join3(a: &str, b: &str, c: &str) -> (r: String)
    ensures
        r@ == a@ + b@ + c@,
{
    let mut r = a.to_owned();
    r.append(b);
    r.append(c);
    r
}

impl NomadClient {
    /// The address that every request starts with.
    pub closed spec fn base(&self) -> Seq<char> {
        self.base_url@
    }

    /// The credential that every request carries.
    pub closed spec fn token(&self) -> Seq<char> {
        self.authorization_token@
    }

    /// Whether `r` is a request of this client without a body.
    pub open spec fn asks(&self, r: Request, method: Method, path: Seq<char>) -> bool {
        &&& r.method == method
        &&& r.url@ == self.base() + path
        &&& r.token@ == self.token()
        &&& r.body is None
    }

    /// Whether `r` is a POST of this client with the given tree as its body.
    pub open spec fn posts(&self, r: Request, path: Seq<char>, tree: JsonView) -> bool {
        &&& r.method == Method::Post
        &&& r.url@ == self.base() + path
        &&& r.token@ == self.token()
        &&& r.body matches Some(b)
        &&& b@ == rendered(tree)
    }

    /// A client for the scheduler at `base_url`.
    pub fn new(base_url: String, authorization_token: String) -> (r: NomadClient)
        ensures
            r.base() == base_url@,
            r.token() == authorization_token@,
    {
        NomadClient { base_url, authorization_token }
    }

    /// A request of this client without a body.
    fn get(&self, method: Method, path: &str) -> (r: Request)
        ensures
            self.asks(r, method, path@),
    {
        Request {
            method,
            url: join(self.base_url.as_str(), path),
            token: self.authorization_token.clone(),
            body: None,
        }
    }

    /// A POST of this client with a tree as its body.
    fn post(&self, path: &str, tree: &Json) -> (r: Result<Request, EncodeError>)
        ensures
            match canonical(tree@) {
                Ok(written) => r matches Ok(q) && self.posts(q, path@, written),
                Err(e) => r matches Err(x) && x == e,
            },
    {
        match render(tree) {
            Ok(text) => Ok(
                Request {
                    method: Method::Post,
                    url: join(self.base_url.as_str(), path),
                    token: self.authorization_token.clone(),
                    body: Some(text),
                },
            ),
            Err(e) => Err(e),
        }
    }

    /// Lists the jobs registered with the scheduler: `GET /v1/jobs`.
    pub fn list_jobs(&self) -> (r: Request)
        ensures
            self.asks(r, Method::Get, "/v1/jobs"@),
    {
        self.get(Method::Get, "/v1/jobs")
    }

    /// Stops a job and all its allocations: `DELETE /v1/job/{job_id}`.
    pub fn stop_job(&self, job_id: &str) -> (r: Request)
        ensures
            self.asks(r, Method::Delete, "/v1/job/"@ + job_id@),
    {
        let path = join("/v1/job/", job_id);
        self.get(Method::Delete, path.as_str())
    }

    /// Lists the allocations of a job: `GET /v1/job/{id}/allocations`.
    pub fn list_job_allocations(&self, id: &str) -> (r: Request)
        ensures
            self.asks(r, Method::Get, "/v1/job/"@ + id@ + "/allocations"@),
    {
        let path = join3("/v1/job/", id, "/allocations");
        self.get(Method::Get, path.as_str())
    }

    /// Reads one allocation by its full identifier:
    /// `GET /v1/allocation/{id}`.
    pub fn read_allocation(&self, id: &str) -> (r: Request)
        ensures
            self.asks(r, Method::Get, "/v1/allocation/"@ + id@),
    {
        let path = join("/v1/allocation/", id);
        self.get(Method::Get, path.as_str())
    }

    /// The body of a dispatch: the payload as base64 text, empty where none
    /// is given, and the metadata as they are.
    pub fn dispatch_body(payload: Option<Vec<u8>>, meta: Vec<(String, String)>) -> (r:
        DispatchJobRequest)
        ensures
            r.deep_view() == (DispatchJobRequestView {
                payload: payload_text(payload),
                meta: meta.deep_view(),
            }),
    {
        let payload = match payload {
            Some(bytes) => encode(&bytes),
            None => String::new(),
        };
        DispatchJobRequest { payload, meta }
    }

    /// Dispatches an instance of a parameterized job:
    /// `POST /v1/job/{job}/dispatch`. The payload is taken as bytes and goes
    /// out as their base64 text; its size is the scheduler's to judge. No
    /// request is made where the metadata name a key twice.
    pub fn dispatch_job(
        &self,
        job: &str,
        payload: Option<Vec<u8>>,
        meta: Vec<(String, String)>,
    ) -> (r: Result<Request, EncodeError>)
        ensures
            match r {
                Ok(q) => distinct_keys(meta.deep_view()) && self.posts(
                    q,
                    "/v1/job/"@ + job@ + "/dispatch"@,
                    DispatchJobRequest::spec_encode(
                        DispatchJobRequestView {
                            payload: payload_text(payload),
                            meta: meta.deep_view(),
                        },
                    ),
                ),
                Err(e) => !distinct_keys(meta.deep_view()) && e == EncodeError::DuplicateName,
            },
    {
        let path = join3("/v1/job/", job, "/dispatch");
        let body = NomadClient::dispatch_body(payload, meta);
        let tree = body.encode();
        proof {
            lemma_dispatch_written(body.deep_view());
        }
        self.post(path.as_str(), &tree)
    }

    /// Has the scheduler parse a job specification: `POST /v1/jobs/parse`.
    /// With `canonicalize` the scheduler fills in what the text leaves out.
    pub fn parse_job(&self, hcl: &str, canonicalize: bool) -> (r: Request)
        ensures
            self.posts(
                r,
                "/v1/jobs/parse"@,
                ParseJobPayload::spec_encode(ParseJobPayloadView { job_hcl: hcl@, canonicalize }),
            ),
    {
        let body = ParseJobPayload { job_hcl: hcl.to_owned(), canonicalize };
        let tree = body.encode();
        proof {
            lemma_parse_written(body.deep_view());
        }
        match self.post("/v1/jobs/parse", &tree) {
            Ok(request) => request,
            Err(_) => unreached(),
        }
    }

    /// Registers a job: `POST /v1/jobs`. A request is made of every job whose
    /// tree can be written as text, as that of any job is that was read from
    /// an answer of the scheduler.
    pub fn create_job(&self, job: &Job) -> (r: Result<Request, EncodeError>)
        ensures
            match canonical(
                CreateJobRequest::spec_encode(CreateJobRequestView { job: job.deep_view() }),
            ) {
                Ok(tree) => r matches Ok(q) && self.posts(q, "/v1/jobs"@, tree),
                Err(e) => r matches Err(x) && x == e,
            },
            writable(Job::spec_encode(job.deep_view())) ==> r is Ok,
    {
        let mut members: Vec<(String, Json)> = Vec::new();
        proof {
            assert(members_view(members@) =~= Seq::empty());
        }
        put(&mut members, "Job", job.encode());
        let tree = Json::Object(members);
        proof {
            if writable(Job::spec_encode(job.deep_view())) {
                lemma_registration_writable(job.deep_view());
            }
        }
        self.post("/v1/jobs", &tree)
    }

    /// Reads the answer to [`NomadClient::list_jobs`].
    pub fn list_jobs_response(body: &str) -> (r: Result<Vec<Job>, Failure>)
        ensures
            reads(r, body@),
    {
        read_response::<Vec<Job>>(body)
    }

    /// Reads the answer to [`NomadClient::stop_job`].
    pub fn stop_job_response(body: &str) -> (r: Result<JobStopResponse, Failure>)
        ensures
            reads(r, body@),
    {
        read_response::<JobStopResponse>(body)
    }

    /// Reads the answer to [`NomadClient::list_job_allocations`].
    pub fn list_job_allocations_response(body: &str) -> (r: Result<
        Vec<ListJobAllocationsResponse>,
        Failure,
    >)
        ensures
            reads(r, body@),
    {
        read_response::<Vec<ListJobAllocationsResponse>>(body)
    }

    /// Reads the answer to [`NomadClient::read_allocation`].
    pub fn read_allocation_response(body: &str) -> (r: Result<Allocation, Failure>)
        ensures
            reads(r, body@),
    {
        read_response::<Allocation>(body)
    }

    /// Reads the answer to [`NomadClient::dispatch_job`].
    pub fn dispatch_job_response(body: &str) -> (r: Result<DispatchJobResponse, Failure>)
        ensures
            reads(r, body@),
    {
        read_response::<DispatchJobResponse>(body)
    }

    /// Reads the answer to [`NomadClient::parse_job`]. The job that was read
    /// can be registered: [`NomadClient::create_job`] makes a request of it.
    pub fn parse_job_response(body: &str) -> (r: Result<Job, Failure>)
        ensures
            reads(r, body@),
            r matches Ok(job) ==> writable(
                CreateJobRequest::spec_encode(CreateJobRequestView { job: job.deep_view() }),
            ),
    {
        let r = read_response::<Job>(body);
        proof {
            if r is Ok {
                lemma_registration_writable(r->Ok_0.deep_view());
            }
        }
        r
    }

    /// Reads the answer to [`NomadClient::create_job`].
    pub fn create_job_response(body: &str) -> (r: Result<CreateJobResponse, Failure>)
        ensures
            reads(r, body@),
    {
        read_response::<CreateJobResponse>(body)
    }
}

/// The body of a dispatch is written as it is where no two keys of the
/// metadata are the same, and otherwise not written.
pub proof fn lemma_dispatch_written(body: DispatchJobRequestView)
    ensures
        canonical(DispatchJobRequest::spec_encode(body)) == if distinct_keys(body.meta) {
            Ok::<JsonView, EncodeError>(DispatchJobRequest::spec_encode(body))
        } else {
            Err::<JsonView, EncodeError>(EncodeError::DuplicateName)
        },
{
    broadcast use {lemma_lookup_push, lemma_lookup_empty};

    reveal_with_fuel(canonical_members, 3);
    reveal_strlit("Payload");
    reveal_strlit("Meta");
    assert("Payload"@.len() == 7);
    assert("Meta"@.len() == 4);
    let meta = spec_encode_members::<String>(body.meta);
    lemma_canonical_members(meta);
    if distinct_keys(body.meta) {
        assert forall|i: int, j: int| 0 <= i < j < meta.len() implies (#[trigger] meta[i]).0 != (
        #[trigger] meta[j]).0 by {
            assert(body.meta[i].0 != body.meta[j].0);
        }
    } else {
        let (i, j) = choose|i: int, j: int|
            0 <= i < j < body.meta.len() && (#[trigger] body.meta[i]).0 == (
            #[trigger] body.meta[j]).0;
        assert(meta[i].0 == meta[j].0);
    }
    let first = Seq::<(Seq<char>, JsonView)>::empty().push(
        ("Payload"@, JsonView::Str(body.payload)),
    );
    let both = first.push(("Meta"@, JsonView::Object(meta)));
    assert(first.drop_last() =~= Seq::empty());
    assert(both.drop_last() =~= first);
    assert(canonical_members(Seq::empty()) == Ok::<Seq<(Seq<char>, JsonView)>, EncodeError>(
        Seq::empty(),
    ));
    assert(canonical_members(first) == Ok::<Seq<(Seq<char>, JsonView)>, EncodeError>(first));
    assert(lookup(first, "Meta"@) is None);
    assert(canonical_members(both) == match canonical(JsonView::Object(meta)) {
        Ok(x) => Ok::<Seq<(Seq<char>, JsonView)>, EncodeError>(first.push(("Meta"@, x))),
        Err(e) => Err(e),
    });
    assert(DispatchJobRequest::spec_encode(body) == JsonView::Object(both));
}

/// The body of a registration can be written where the job can.
pub proof fn lemma_registration_writable(job: JobView)
    requires
        writable(Job::spec_encode(job)),
    ensures
        writable(CreateJobRequest::spec_encode(CreateJobRequestView { job })),
{
    broadcast use {lemma_writable_push, lemma_writable_empty, lemma_lookup_empty};

    lemma_writable_object(CreateJobRequest::spec_encode(CreateJobRequestView { job })->Object_0);
}

/// The body of a request to parse is always written, and as it is.
pub proof fn lemma_parse_written(body: ParseJobPayloadView)
    ensures
        canonical(ParseJobPayload::spec_encode(body)) == Ok::<JsonView, EncodeError>(
            ParseJobPayload::spec_encode(body),
        ),
{
    broadcast use {lemma_lookup_push, lemma_lookup_empty};

    reveal_with_fuel(canonical_members, 3);
    reveal_strlit("JobHCL");
    reveal_strlit("canonicalize");
    assert("JobHCL"@.len() == 6);
    assert("canonicalize"@.len() == 12);
    let first = Seq::<(Seq<char>, JsonView)>::empty().push(
        ("JobHCL"@, JsonView::Str(body.job_hcl)),
    );
    let both = first.push(("canonicalize"@, JsonView::Bool(body.canonicalize)));
    assert(first.drop_last() =~= Seq::empty());
    assert(both.drop_last() =~= first);
    assert(canonical_members(Seq::empty()) == Ok::<Seq<(Seq<char>, JsonView)>, EncodeError>(
        Seq::empty(),
    ));
    assert(canonical_members(first) == Ok::<Seq<(Seq<char>, JsonView)>, EncodeError>(first));
    assert(canonical_members(both) == Ok::<Seq<(Seq<char>, JsonView)>, EncodeError>(both));
}

} // verus!
