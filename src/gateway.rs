use vstd::prelude::*;
use crate::error::StreamingError;
use crate::service::{StreamGrant, StreamingService};

verus! {

/// An inbound request as the transport hands it over.
#[derive(Clone, Debug)]
pub struct Request {
    pub method: String,
    pub path: String,
    pub user_id: String,
    pub video_id: String,
}

/// How the request fared at the admission gate.
#[derive(Clone, Copy, Debug, PartialEq, Eq, Structural)]
pub enum Admission {
    /// A permit was granted and is held while the request is handled.
    Admitted,
    /// The semaphore was shut down: no permit will ever be granted.
    GateClosed,
}

/// The one result a request comes to.
#[derive(Clone, Debug, PartialEq, Eq)]
pub enum Outcome {
    Streaming(StreamGrant),
    RoutingNotFound,
    Overloaded,
    UserNotFound,
    VideoNotFound,
    LockUnavailable,
}

/// The one target this gateway serves: `GET /stream`.
pub open spec fn is_stream_target(method: Seq<char>, path: Seq<char>) -> bool {
    method == "GET"@ && path == "/stream"@
}

/// Whether `method` and `path` name the stream target.
pub fn is_stream_request(method: &str, path: &str) -> (r: bool)
    ensures
        r == is_stream_target(method@, path@),
{
    let method = method.to_owned();
    let path = path.to_owned();
    let get = "GET".to_owned();
    let stream = "/stream".to_owned();
    method == get && path == stream
}

/// The outcome that a failed operation on the sessions or the catalog reports.
pub fn outcome_of_error(e: StreamingError) -> (r: Outcome)
    ensures
        r == error_outcome(e),
{
    match e {
        StreamingError::LockPoisoned => Outcome::LockUnavailable,
        StreamingError::UserNotFound => Outcome::UserNotFound,
        StreamingError::VideoNotFound => Outcome::VideoNotFound,
    }
}

/// The outcome that reports error `e`.
pub open spec fn error_outcome(e: StreamingError) -> Outcome {
    match e {
        StreamingError::LockPoisoned => Outcome::LockUnavailable,
        StreamingError::UserNotFound => Outcome::UserNotFound,
        StreamingError::VideoNotFound => Outcome::VideoNotFound,
    }
}

/// What an admitted request may come to over the catalog `catalog`: an unknown
/// target is `RoutingNotFound`; a stream request is a grant for the requested
/// user and a catalogued video, `UserNotFound`, or, for an uncatalogued video,
/// `VideoNotFound`.
pub open spec fn admitted_outcome(catalog: Map<Seq<char>, Seq<u32>>, request: Request, r: Outcome) -> bool {
    if !is_stream_target(request.method@, request.path@) {
        r == Outcome::RoutingNotFound
    } else {
        match r {
            Outcome::Streaming(g) => {
                &&& g.user_id@ == request.user_id@
                &&& g.video_id@ == request.video_id@
                &&& catalog.contains_key(request.video_id@)
            },
            Outcome::UserNotFound => true,
            Outcome::VideoNotFound => !catalog.contains_key(request.video_id@),
            _ => false,
        }
    }
}

/// Handles a request that holds an admission permit.
pub fn process_request(service: &StreamingService, request: &Request) -> (r: Outcome)
    requires
        service.wf(),
    ensures
        admitted_outcome(service.catalog(), *request, r),
{
    if !is_stream_request(request.method.as_str(), request.path.as_str()) {
        return Outcome::RoutingNotFound;
    }
    match service.initiate_streaming(request.user_id.as_str(), request.video_id.as_str()) {
        Ok(grant) => Outcome::Streaming(grant),
        Err(e) => outcome_of_error(e),
    }
}

/// Handles a request once the admission gate has answered. Admission comes
/// before routing: once admission has shut down every request is `Overloaded`,
/// whatever its target.
pub fn handle_request(service: &StreamingService, admission: Admission, request: &Request) -> (r: Outcome)
    requires
        service.wf(),
    ensures
        admission == Admission::GateClosed ==> r == Outcome::Overloaded,
        admission == Admission::Admitted ==> admitted_outcome(service.catalog(), *request, r),
{
    match admission {
        Admission::GateClosed => Outcome::Overloaded,
        Admission::Admitted => process_request(service, request),
    }
}

impl Outcome {
    /// The HTTP status class: 200 for a stream, 404 for anything not found,
    /// 500 when the gateway could not serve.
    pub fn status_code(&self) -> (r: u16)
        ensures
            r == match *self {
                Outcome::Streaming(_) => 200u16,
                Outcome::RoutingNotFound | Outcome::UserNotFound | Outcome::VideoNotFound => 404u16,
                Outcome::Overloaded | Outcome::LockUnavailable => 500u16,
            },
    {
        match self {
            Outcome::Streaming(_) => 200,
            Outcome::RoutingNotFound | Outcome::UserNotFound | Outcome::VideoNotFound => 404,
            Outcome::Overloaded | Outcome::LockUnavailable => 500,
        }
    }

    /// The response body.
    pub fn body(&self) -> (r: &'static str)
        ensures
            r@ == match *self {
                Outcome::Streaming(_) => "Streaming video..."@,
                Outcome::RoutingNotFound => "404 Not Found"@,
                Outcome::Overloaded => "Server is currently overloaded"@,
                Outcome::UserNotFound => "User not found"@,
                Outcome::VideoNotFound => "Video not found"@,
                Outcome::LockUnavailable => "Mutex lock has been poisoned"@,
            },
    {
        match self {
            Outcome::Streaming(_) => "Streaming video...",
            Outcome::RoutingNotFound => "404 Not Found",
            Outcome::Overloaded => "Server is currently overloaded",
            Outcome::UserNotFound => "User not found",
            Outcome::VideoNotFound => "Video not found",
            Outcome::LockUnavailable => "Mutex lock has been poisoned",
        }
    }
}

/// The largest capacity the admission gate's semaphore accepts.
pub const MAX_CAPACITY: usize = usize::MAX >> 3;

/// Whether `limit` may serve as the admission gate's capacity: at least one
/// permit, and no more than the semaphore can count.
pub fn is_valid_capacity(limit: usize) -> (r: bool)
    ensures
        r == (1 <= limit && limit <= MAX_CAPACITY),
{
    1 <= limit && limit <= MAX_CAPACITY
}

} // verus!
