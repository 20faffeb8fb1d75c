//! The course of a PHP request, as a step function: from where the request
//! stands and what the last piece of outside work gave, the next stage and
//! the next piece of work. The server performs the work (rate limiter,
//! file system, pool lock, worker process, socket) and hands back the
//! outcome.

use vstd::prelude::*;
use crate::rate_limit::{RateLimitError, RateLimitHeaders};
use crate::static_file::{is_static_file, lowercase, path_extension, static_extension};
use crate::types::PhpResponse;

verus! {

/// The worker picked for a request and the limits of its pool.
#[derive(Clone, Copy, Debug)]
pub struct WorkerLimits {
    pub index: usize,
    pub memory_limit_mb: u64,
    pub max_requests: u64,
    pub timeout_ms: u64,
}

/// Where a PHP request stands: the outside work it waits for.
#[derive(Clone, Copy, Debug, PartialEq, Eq)]
pub enum PhpStage {
    /// The rate limiter's answer.
    RateLimit,
    /// The PHP file that the path names.
    Locate,
    /// The pool that takes the path.
    Route,
    /// The worker picked in the pool.
    Pick,
    /// Whether the worker runs (or could be started).
    Start,
    /// Whether the request body could be read.
    Body,
    /// The worker's answer.
    Send,
    /// The worker's restart check after an answer.
    Restart,
    /// Nothing: the request is answered.
    Done,
}

/// A PHP request's state.
#[derive(Clone, Copy, Debug)]
pub struct PhpRequestState {
    pub stage: PhpStage,
    /// The path names a static file.
    pub static_path: bool,
    /// The rate limiter's figures for an admitted request.
    pub rate: Option<RateLimitHeaders>,
    /// The picked worker and its pool's limits.
    pub worker: Option<WorkerLimits>,
}

/// How the worker's exchange ended.
pub enum SendOutcome {
    /// The worker answered.
    Answered(PhpResponse),
    /// The exchange failed with this error.
    Failed(String),
    /// The pool's timeout passed first.
    TimedOut,
}

/// What a piece of outside work gave.
pub enum PhpRequestEvent {
    /// The limiter's answer; `None` when the client address is not an IP
    /// address and no limit applies.
    RateChecked(Option<Result<RateLimitHeaders, RateLimitError>>),
    /// The resolved PHP file, if any.
    FileLocated(Option<String>),
    /// The pool's name, if any pool takes the path.
    Routed(Option<String>),
    /// The worker picked in the pool.
    WorkerPicked(WorkerLimits),
    /// Whether the worker runs, or why it could not be started.
    WorkerStarted(Result<(), String>),
    /// Whether the body was read, or why not.
    BodyRead(Result<(), String>),
    /// How the exchange with the worker ended.
    Replied(SendOutcome),
    /// The restart reason after the answer, if any.
    RestartChecked(Option<String>),
}

/// The next piece of work.
pub enum PhpRequestAction {
    /// Ask the rate limiter.
    CheckRateLimit,
    /// Answer 429 with the limiter's figures.
    Refuse(RateLimitError),
    /// Serve the path as a static file.
    ServeStatic,
    /// Look for the PHP file the path names.
    LocateFile,
    /// Answer 404.
    NotFound,
    /// Find the pool for the path; the request runs this file.
    Route(String),
    /// Answer 500: no pool takes the path.
    NoPool,
    /// Pick a worker of this pool.
    PickWorker(String),
    /// Make sure the worker runs.
    EnsureRunning,
    /// Answer 500: the worker could not be started.
    StartFailed(String),
    /// Read the request and its body.
    ReadBody,
    /// Answer 400: the body could not be read.
    BadBody(String),
    /// Send the request to the worker, waiting at most this long.
    Send(u64),
    /// Record the answer (metrics, the worker's statistics) and check the
    /// worker against its pool's limits; the answer goes out with these
    /// rate-limit figures.
    Complete { response: PhpResponse, worker: WorkerLimits, rate: Option<RateLimitHeaders> },
    /// Answer 500 with the error, count it and make sure the worker runs.
    Failed(String),
    /// Answer 504 for this timeout, count it and stop the worker.
    TimedOut(u64),
    /// Stop the worker for this reason, then send the answer.
    StopWorker(String),
    /// Send the answer; the worker stays.
    KeepWorker,
    /// The event does not belong to this stage: nothing to do.
    Ignore,
}

/// The state of a new request for `path`, waiting for the rate limiter.
pub open spec fn php_request_start(path: Seq<char>) -> PhpRequestState {
    PhpRequestState {
        stage: PhpStage::RateLimit,
        static_path: static_extension(lowercase(path_extension(path))),
        rate: None,
        worker: None,
    }
}

/// A state at a new stage.
pub open spec fn at_stage(s: PhpRequestState, stage: PhpStage) -> PhpRequestState {
    PhpRequestState { stage, ..s }
}

/// The course of a PHP request:
/// - the limiter refusing gives 429; an admitted request (or one whose
///   address is not an IP address) is served directly when the path names
///   a static file, else its PHP file is looked for;
/// - no PHP file gives 404; a file is routed to a pool, and no pool gives
///   500;
/// - a worker of the pool is picked and made to run; a worker that cannot
///   be started gives 500;
/// - a body that cannot be read gives 400; else the request is sent with
///   the pool's timeout;
/// - an answer is recorded and the worker checked against its limits: a
///   restart reason stops the worker; a failed exchange gives 500 and
///   makes sure the worker runs; a timeout gives 504 and stops the worker.
/// An event that does not belong to the stage changes nothing.
pub open spec fn php_request_next(s: PhpRequestState, e: PhpRequestEvent) -> (PhpRequestState, PhpRequestAction) {
    match (s.stage, e) {
        (PhpStage::RateLimit, PhpRequestEvent::RateChecked(r)) => match r {
            Some(Err(err)) => (at_stage(s, PhpStage::Done), PhpRequestAction::Refuse(err)),
            Some(Ok(h)) => if s.static_path {
                (PhpRequestState { stage: PhpStage::Done, rate: Some(h), ..s }, PhpRequestAction::ServeStatic)
            } else {
                (PhpRequestState { stage: PhpStage::Locate, rate: Some(h), ..s }, PhpRequestAction::LocateFile)
            },
            None => if s.static_path {
                (at_stage(s, PhpStage::Done), PhpRequestAction::ServeStatic)
            } else {
                (at_stage(s, PhpStage::Locate), PhpRequestAction::LocateFile)
            },
        },
        (PhpStage::Locate, PhpRequestEvent::FileLocated(f)) => match f {
            None => (at_stage(s, PhpStage::Done), PhpRequestAction::NotFound),
            Some(file) => (at_stage(s, PhpStage::Route), PhpRequestAction::Route(file)),
        },
        (PhpStage::Route, PhpRequestEvent::Routed(p)) => match p {
            None => (at_stage(s, PhpStage::Done), PhpRequestAction::NoPool),
            Some(pool) => (at_stage(s, PhpStage::Pick), PhpRequestAction::PickWorker(pool)),
        },
        (PhpStage::Pick, PhpRequestEvent::WorkerPicked(w)) => (
            PhpRequestState { stage: PhpStage::Start, worker: Some(w), ..s },
            PhpRequestAction::EnsureRunning,
        ),
        (PhpStage::Start, PhpRequestEvent::WorkerStarted(r)) => match r {
            Err(err) => (at_stage(s, PhpStage::Done), PhpRequestAction::StartFailed(err)),
            Ok(()) => (at_stage(s, PhpStage::Body), PhpRequestAction::ReadBody),
        },
        (PhpStage::Body, PhpRequestEvent::BodyRead(r)) => match (r, s.worker) {
            (Err(err), _) => (at_stage(s, PhpStage::Done), PhpRequestAction::BadBody(err)),
            (Ok(()), Some(w)) => (at_stage(s, PhpStage::Send), PhpRequestAction::Send(w.timeout_ms)),
            (Ok(()), None) => (s, PhpRequestAction::Ignore),
        },
        (PhpStage::Send, PhpRequestEvent::Replied(o)) => match (o, s.worker) {
            (SendOutcome::Answered(resp), Some(w)) => (
                at_stage(s, PhpStage::Restart),
                PhpRequestAction::Complete { response: resp, worker: w, rate: s.rate },
            ),
            (SendOutcome::Failed(err), Some(_)) => (at_stage(s, PhpStage::Done), PhpRequestAction::Failed(err)),
            (SendOutcome::TimedOut, Some(w)) => (
                at_stage(s, PhpStage::Done),
                PhpRequestAction::TimedOut(w.timeout_ms),
            ),
            (_, None) => (s, PhpRequestAction::Ignore),
        },
        (PhpStage::Restart, PhpRequestEvent::RestartChecked(r)) => match r {
            Some(reason) => (at_stage(s, PhpStage::Done), PhpRequestAction::StopWorker(reason)),
            None => (at_stage(s, PhpStage::Done), PhpRequestAction::KeepWorker),
        },
        _ => (s, PhpRequestAction::Ignore),
    }
}

impl PhpRequestState {
    /// A new request for `path`: the first work is the rate limiter.
    pub fn new(path: &str) -> (r: (PhpRequestState, PhpRequestAction))
        ensures
            r.0 == php_request_start(path@),
            r.1 is CheckRateLimit,
    {
        let static_path = is_static_file(path);
        (
            PhpRequestState { stage: PhpStage::RateLimit, static_path, rate: None, worker: None },
            PhpRequestAction::CheckRateLimit,
        )
    }
}

/// An answered request stays answered: once a request is done, every
/// further event is ignored and changes nothing.
pub proof fn lemma_done_is_final(s: PhpRequestState, e: PhpRequestEvent)
    requires
        s.stage == PhpStage::Done,
    ensures
        php_request_next(s, e) == (s, PhpRequestAction::Ignore),
{
}

/// A worker is stopped only for a timed-out exchange or for a restart
/// reason given after an answer; a refusal by the rate limiter ends the
/// request at once.
pub proof fn lemma_stops_and_refusals(s: PhpRequestState, e: PhpRequestEvent)
    ensures
        php_request_next(s, e).1 is StopWorker ==> s.stage == PhpStage::Restart
            && e matches PhpRequestEvent::RestartChecked(Some(_)),
        php_request_next(s, e).1 is TimedOut ==> s.stage == PhpStage::Send
            && e matches PhpRequestEvent::Replied(SendOutcome::TimedOut),
        php_request_next(s, e).1 is Refuse ==> php_request_next(s, e).0.stage == PhpStage::Done,
{
}

/// One step of a PHP request (see `php_request_next`).
pub fn php_request_step(state: &PhpRequestState, event: PhpRequestEvent) -> (r: (PhpRequestState, PhpRequestAction))
    ensures
        r == php_request_next(*state, event),
{
    let s = *state;
    match (s.stage, event) {
        (PhpStage::RateLimit, PhpRequestEvent::RateChecked(r)) => match r {
            Some(Err(err)) => (PhpRequestState { stage: PhpStage::Done, ..s }, PhpRequestAction::Refuse(err)),
            Some(Ok(h)) => if s.static_path {
                (PhpRequestState { stage: PhpStage::Done, rate: Some(h), ..s }, PhpRequestAction::ServeStatic)
            } else {
                (PhpRequestState { stage: PhpStage::Locate, rate: Some(h), ..s }, PhpRequestAction::LocateFile)
            },
            None => if s.static_path {
                (PhpRequestState { stage: PhpStage::Done, ..s }, PhpRequestAction::ServeStatic)
            } else {
                (PhpRequestState { stage: PhpStage::Locate, ..s }, PhpRequestAction::LocateFile)
            },
        },
        (PhpStage::Locate, PhpRequestEvent::FileLocated(f)) => match f {
            None => (PhpRequestState { stage: PhpStage::Done, ..s }, PhpRequestAction::NotFound),
            Some(file) => (PhpRequestState { stage: PhpStage::Route, ..s }, PhpRequestAction::Route(file)),
        },
        (PhpStage::Route, PhpRequestEvent::Routed(p)) => match p {
            None => (PhpRequestState { stage: PhpStage::Done, ..s }, PhpRequestAction::NoPool),
            Some(pool) => (PhpRequestState { stage: PhpStage::Pick, ..s }, PhpRequestAction::PickWorker(pool)),
        },
        (PhpStage::Pick, PhpRequestEvent::WorkerPicked(w)) => (
            PhpRequestState { stage: PhpStage::Start, worker: Some(w), ..s },
            PhpRequestAction::EnsureRunning,
        ),
        (PhpStage::Start, PhpRequestEvent::WorkerStarted(r)) => match r {
            Err(err) => (PhpRequestState { stage: PhpStage::Done, ..s }, PhpRequestAction::StartFailed(err)),
            Ok(()) => (PhpRequestState { stage: PhpStage::Body, ..s }, PhpRequestAction::ReadBody),
        },
        (PhpStage::Body, PhpRequestEvent::BodyRead(r)) => match (r, s.worker) {
            (Err(err), _) => (PhpRequestState { stage: PhpStage::Done, ..s }, PhpRequestAction::BadBody(err)),
            (Ok(()), Some(w)) => (PhpRequestState { stage: PhpStage::Send, ..s }, PhpRequestAction::Send(w.timeout_ms)),
            (Ok(()), None) => (s, PhpRequestAction::Ignore),
        },
        (PhpStage::Send, PhpRequestEvent::Replied(o)) => match (o, s.worker) {
            (SendOutcome::Answered(resp), Some(w)) => (
                PhpRequestState { stage: PhpStage::Restart, ..s },
                PhpRequestAction::Complete { response: resp, worker: w, rate: s.rate },
            ),
            (SendOutcome::Failed(err), Some(_)) => (
                PhpRequestState { stage: PhpStage::Done, ..s },
                PhpRequestAction::Failed(err),
            ),
            (SendOutcome::TimedOut, Some(w)) => (
                PhpRequestState { stage: PhpStage::Done, ..s },
                PhpRequestAction::TimedOut(w.timeout_ms),
            ),
            (_, None) => (s, PhpRequestAction::Ignore),
        },
        (PhpStage::Restart, PhpRequestEvent::RestartChecked(r)) => match r {
            Some(reason) => (PhpRequestState { stage: PhpStage::Done, ..s }, PhpRequestAction::StopWorker(reason)),
            None => (PhpRequestState { stage: PhpStage::Done, ..s }, PhpRequestAction::KeepWorker),
        },
        _ => (s, PhpRequestAction::Ignore),
    }
}

} // verus!
