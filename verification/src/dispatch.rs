//! The request dispatcher's rules: what a management request looks like on
//! the wire, by when it must be done, and what its outcome means. Each request
//! is sent once; nothing here retries.

use crate::error::CoreError;
use crate::error::CoreErrorView;
use vstd::prelude::*;
use vstd::string::*;

verus! {

/// The HTTP method of a request.
#[derive(Debug, Clone, Copy, PartialEq, Eq, Structural)]
pub enum Verb {
    Get,
    Put,
}

/// A request as the transport sends it.
#[derive(Debug, Clone, PartialEq, Eq)]
pub struct Request {
    pub verb: Verb,
    pub path: String,
    /// The encoded body, where the request has one.
    pub payload: Option<String>,
}

/// The mathematical content of a [`Request`].
pub struct RequestView {
    pub verb: Verb,
    pub path: Seq<char>,
    pub payload: Option<Seq<char>>,
}

impl View for Request {
    type V = RequestView;

    open spec fn view(&self) -> RequestView {
        RequestView {
            verb: self.verb,
            path: self.path@,
            payload: match self.payload {
                Some(p) => Some(p@),
                None => None,
            },
        }
    }
}

/// A request to the management interface of a self-hosted cluster.
#[derive(Debug, Clone, PartialEq, Eq)]
pub enum ManagementRequest {
    GetBucket { name: String },
    GetBuckets,
    /// `payload` is the form-encoded settings.
    UpdateBucket { name: String, payload: String },
    IndexStatus,
}

/// A request to the cloud control plane.
#[derive(Debug, Clone, PartialEq, Eq)]
pub enum CapellaRequest {
    /// Lists the organization's clusters, to find the one called `name`.
    GetClusters { name: String },
    GetBuckets { cluster_id: String },
    /// `payload` is the whole collection of buckets, as JSON.
    UpdateBucket { cluster_id: String, payload: String },
}

/// `GET /bucket/{name}`
pub open spec fn get_bucket_request(name: Seq<char>) -> RequestView {
    RequestView { verb: Verb::Get, path: "/bucket/"@ + name, payload: None }
}

/// `GET /buckets`
pub open spec fn get_buckets_request() -> RequestView {
    RequestView { verb: Verb::Get, path: "/buckets"@, payload: None }
}

/// `PUT /bucket/{name}` with the form-encoded settings
pub open spec fn update_bucket_request(name: Seq<char>, payload: Seq<char>) -> RequestView {
    RequestView { verb: Verb::Put, path: "/bucket/"@ + name, payload: Some(payload) }
}

/// `GET /indexStatus`
pub open spec fn index_status_request() -> RequestView {
    RequestView { verb: Verb::Get, path: "/indexStatus"@, payload: None }
}

/// `GET /clusters?name={name}`
pub open spec fn get_clusters_request(name: Seq<char>) -> RequestView {
    RequestView { verb: Verb::Get, path: "/clusters?name="@ + name, payload: None }
}

/// `GET /clusters/{id}/buckets`
pub open spec fn get_cloud_buckets_request(cluster_id: Seq<char>) -> RequestView {
    RequestView { verb: Verb::Get, path: "/clusters/"@ + cluster_id + "/buckets"@, payload: None }
}

/// `PUT /clusters/{id}/buckets` with the whole collection
pub open spec fn update_cloud_buckets_request(
    cluster_id: Seq<char>,
    payload: Seq<char>,
) -> RequestView {
    RequestView {
        verb: Verb::Put,
        path: "/clusters/"@ + cluster_id + "/buckets"@,
        payload: Some(payload),
    }
}

impl ManagementRequest {
    /// The request as it is sent.
    pub open spec fn wire(self) -> RequestView {
        match self {
            ManagementRequest::GetBucket { name } => get_bucket_request(name@),
            ManagementRequest::GetBuckets => get_buckets_request(),
            ManagementRequest::UpdateBucket { name, payload } => update_bucket_request(
                name@,
                payload@,
            ),
            ManagementRequest::IndexStatus => index_status_request(),
        }
    }

    /// The request as it is sent.
    pub fn request(&self) -> (r: Request)
        ensures
            r@ == self.wire(),
    {
        match self {
            ManagementRequest::GetBucket { name } => Request {
                verb: Verb::Get,
                path: String::from_str("/bucket/").concat(name.as_str()),
                payload: None,
            },
            ManagementRequest::GetBuckets => Request {
                verb: Verb::Get,
                path: String::from_str("/buckets"),
                payload: None,
            },
            ManagementRequest::UpdateBucket { name, payload } => Request {
                verb: Verb::Put,
                path: String::from_str("/bucket/").concat(name.as_str()),
                payload: Some(payload.clone()),
            },
            ManagementRequest::IndexStatus => Request {
                verb: Verb::Get,
                path: String::from_str("/indexStatus"),
                payload: None,
            },
        }
    }
}

impl CapellaRequest {
    /// The request as it is sent.
    pub open spec fn wire(self) -> RequestView {
        match self {
            CapellaRequest::GetClusters { name } => get_clusters_request(name@),
            CapellaRequest::GetBuckets { cluster_id } => get_cloud_buckets_request(cluster_id@),
            CapellaRequest::UpdateBucket { cluster_id, payload } => update_cloud_buckets_request(
                cluster_id@,
                payload@,
            ),
        }
    }

    /// The request as it is sent.
    pub fn request(&self) -> (r: Request)
        ensures
            r@ == self.wire(),
    {
        match self {
            CapellaRequest::GetClusters { name } => Request {
                verb: Verb::Get,
                path: String::from_str("/clusters?name=").concat(name.as_str()),
                payload: None,
            },
            CapellaRequest::GetBuckets { cluster_id } => Request {
                verb: Verb::Get,
                path: String::from_str("/clusters/").concat(cluster_id.as_str()).concat(
                    "/buckets",
                ),
                payload: None,
            },
            CapellaRequest::UpdateBucket { cluster_id, payload } => Request {
                verb: Verb::Put,
                path: String::from_str("/clusters/").concat(cluster_id.as_str()).concat(
                    "/buckets",
                ),
                payload: Some(payload.clone()),
            },
        }
    }
}

/// What a server answered.
#[derive(Debug, Clone, PartialEq, Eq)]
pub struct Response {
    pub status: u16,
    pub content: String,
}

/// The mathematical content of a [`Response`].
pub struct ResponseView {
    pub status: u16,
    pub content: Seq<char>,
}

impl View for Response {
    type V = ResponseView;

    open spec fn view(&self) -> ResponseView {
        ResponseView { status: self.status, content: self.content@ }
    }
}

/// How the one attempt at a request ended.
#[derive(Debug, Clone, PartialEq, Eq)]
pub enum Outcome {
    /// The server answered.
    Answered(Response),
    /// The network failed.
    Failed { detail: String },
    /// The deadline passed before an answer came.
    DeadlineExceeded,
    /// The request was cancelled from outside.
    Cancelled,
}

/// The mathematical content of an [`Outcome`].
pub enum OutcomeView {
    Answered(ResponseView),
    Failed { detail: Seq<char> },
    DeadlineExceeded,
    Cancelled,
}

impl View for Outcome {
    type V = OutcomeView;

    open spec fn view(&self) -> OutcomeView {
        match self {
            Outcome::Answered(response) => OutcomeView::Answered(response@),
            Outcome::Failed { detail } => OutcomeView::Failed { detail: detail@ },
            Outcome::DeadlineExceeded => OutcomeView::DeadlineExceeded,
            Outcome::Cancelled => OutcomeView::Cancelled,
        }
    }
}

/// Whether a status code stands for success.
pub open spec fn is_success(status: u16) -> bool {
    status == 200 || status == 201 || status == 202
}

/// What a response means: its body where the status stands for success,
/// else the status and the body as an error.
pub open spec fn classified(response: ResponseView) -> Result<Seq<char>, CoreErrorView> {
    if is_success(response.status) {
        Ok(response.content)
    } else {
        Err(CoreErrorView::UnexpectedStatusCode { code: response.status, body: response.content })
    }
}

/// What an error says of a request whose deadline passed.
pub open spec fn deadline_detail() -> Seq<char> {
    "the deadline passed before the request completed"@
}

/// What the outcome of a request means: the body of a successful response,
/// or the error for anything else.
pub open spec fn settled(outcome: OutcomeView) -> Result<Seq<char>, CoreErrorView> {
    match outcome {
        OutcomeView::Answered(response) => classified(response),
        OutcomeView::Failed { detail } => Err(CoreErrorView::TransportError { detail }),
        OutcomeView::DeadlineExceeded => Err(
            CoreErrorView::TransportError { detail: deadline_detail() },
        ),
        OutcomeView::Cancelled => Err(CoreErrorView::Cancelled),
    }
}

/// Classifies a response by its status code: 200, 201 and 202 are success
/// and yield the body; any other code is an error that carries the code and
/// the body as they came.
pub fn classify(response: Response) -> (r: Result<String, CoreError>)
    ensures
        match classified(response@) {
            Ok(body) => r is Ok && r->Ok_0@ == body,
            Err(e) => r is Err && r->Err_0@ == e,
        },
{
    if response.status == 200 || response.status == 201 || response.status == 202 {
        Ok(response.content)
    } else {
        Err(CoreError::UnexpectedStatusCode { code: response.status, body: response.content })
    }
}

/// Says what the outcome of a request means.
pub fn settle(outcome: Outcome) -> (r: Result<String, CoreError>)
    ensures
        match settled(outcome@) {
            Ok(body) => r is Ok && r->Ok_0@ == body,
            Err(e) => r is Err && r->Err_0@ == e,
        },
{
    match outcome {
        Outcome::Answered(response) => classify(response),
        Outcome::Failed { detail } => Err(CoreError::TransportError { detail }),
        Outcome::DeadlineExceeded => Err(
            CoreError::TransportError {
                detail: String::from_str("the deadline passed before the request completed"),
            },
        ),
        Outcome::Cancelled => Err(CoreError::Cancelled),
    }
}

/// The instant by which a request that starts at `now` and may take
/// `timeout` must be done, both in milliseconds; the latest instant there is
/// where the sum is beyond it.
pub open spec fn deadline_at(now: u64, timeout: u64) -> u64 {
    if now + timeout > u64::MAX {
        u64::MAX
    } else {
        (now + timeout) as u64
    }
}

/// The deadline of a request that starts at `now` and may take `timeout`.
pub fn deadline(now: u64, timeout: u64) -> (at: u64)
    ensures
        at == deadline_at(now, timeout),
        at >= now,
{
    if timeout > u64::MAX - now {
        u64::MAX
    } else {
        now + timeout
    }
}

/// What is known of a request before it is sent: it is cancelled where
/// the interrupt was raised, it has missed its deadline where that has passed,
/// and there is nothing to say yet otherwise.
pub open spec fn foregone(cancelled: bool, deadline: u64, now: u64) -> Option<OutcomeView> {
    if cancelled {
        Some(OutcomeView::Cancelled)
    } else if now >= deadline {
        Some(OutcomeView::DeadlineExceeded)
    } else {
        None
    }
}

/// Checks the interrupt and the deadline before a request is sent. Where
/// the result is an outcome, the request is not sent at all.
pub fn before_sending(cancelled: bool, deadline: u64, now: u64) -> (r: Option<Outcome>)
    ensures
        r.is_some() == foregone(cancelled, deadline, now).is_some(),
        r is Some ==> Some(r->0@) == foregone(cancelled, deadline, now),
{
    if cancelled {
        Some(Outcome::Cancelled)
    } else if now >= deadline {
        Some(Outcome::DeadlineExceeded)
    } else {
        None
    }
}

/// Whether a deadline has passed at `now`.
pub fn expired(deadline: u64, now: u64) -> (r: bool)
    ensures
        r == (now >= deadline),
{
    now >= deadline
}

/// The time that is left at `now` until `deadline`; none once it has passed.
pub fn remaining(deadline: u64, now: u64) -> (left: u64)
    ensures
        left == if now >= deadline {
            0
        } else {
            deadline - now
        },
{
    if now >= deadline {
        0
    } else {
        deadline - now
    }
}

} // verus!
