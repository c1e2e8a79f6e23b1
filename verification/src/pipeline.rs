//! The resilience pipeline around every handler: concurrency admission,
//! load shedding, a wall-clock timeout, and the central translation of
//! pipeline failures into HTTP responses. The per-request life cycle is a
//! small state machine; the transport drives it with observed events.

use vstd::prelude::*;

verus! {

/// Most requests allowed through the pipeline at once.
pub const CONCURRENCY_LIMIT: usize = 1024;

/// Wall-clock bound on one request, in seconds.
pub const TIMEOUT_SECS: u64 = 10;

/// Where one request stands in its life cycle.
#[derive(Clone, Copy, Debug, PartialEq, Eq)]
pub enum RequestState {
    /// Arrived, not yet past the admission check.
    Admitted,
    /// Rejected fast because the pipeline was saturated.
    Shed,
    /// Past admission, handler work in progress.
    Running,
    /// Aborted because the wall-clock bound was exceeded.
    TimedOut,
    /// The handler produced its response.
    Completed,
}

/// What the pipeline observes about a request.
#[derive(Clone, Copy, Debug, PartialEq, Eq)]
pub enum RequestEvent {
    /// Entry into the pipeline with this many requests already in flight.
    Enter { in_flight: usize },
    /// The wall clock reached this many seconds since entry.
    Clock { elapsed_secs: u64 },
    /// The handler finished and produced a response.
    Respond,
}

/// A state is terminal when no event moves the request further.
pub open spec fn is_terminal(s: RequestState) -> bool {
    s == RequestState::Shed || s == RequestState::TimedOut || s == RequestState::Completed
}

/// The life cycle of a request: admission runs or sheds it, the clock can
/// time a running request out, a response completes it, and a terminal
/// state never changes.
pub open spec fn step_spec(s: RequestState, ev: RequestEvent) -> RequestState {
    match (s, ev) {
        (RequestState::Admitted, RequestEvent::Enter { in_flight }) => {
            if in_flight < CONCURRENCY_LIMIT {
                RequestState::Running
            } else {
                RequestState::Shed
            }
        },
        (RequestState::Running, RequestEvent::Clock { elapsed_secs }) => {
            if elapsed_secs > TIMEOUT_SECS {
                RequestState::TimedOut
            } else {
                RequestState::Running
            }
        },
        (RequestState::Running, RequestEvent::Respond) => RequestState::Completed,
        _ => s,
    }
}

/// Advances a request's state by one observed event.
pub fn step(s: RequestState, ev: RequestEvent) -> (r: RequestState)
    ensures
        r == step_spec(s, ev),
{
    match (s, ev) {
        (RequestState::Admitted, RequestEvent::Enter { in_flight }) => {
            if in_flight < CONCURRENCY_LIMIT {
                RequestState::Running
            } else {
                RequestState::Shed
            }
        },
        (RequestState::Running, RequestEvent::Clock { elapsed_secs }) => {
            if elapsed_secs > TIMEOUT_SECS {
                RequestState::TimedOut
            } else {
                RequestState::Running
            }
        },
        (RequestState::Running, RequestEvent::Respond) => RequestState::Completed,
        _ => s,
    }
}

/// Law: Shed, TimedOut and Completed are terminal — no later event changes
/// them.
pub proof fn lemma_terminal_states_stay(s: RequestState, ev: RequestEvent)
    requires
        is_terminal(s),
    ensures
        step_spec(s, ev) == s,
{
}

/// A failure surfacing from the pipeline rather than from a handler.
#[derive(Clone, Debug, PartialEq, Eq)]
pub enum PipelineError {
    /// The request exceeded the wall-clock bound.
    Timeout,
    /// The request was shed because the pipeline was saturated.
    Overloaded,
    /// Any other unhandled failure, with its diagnostic text.
    Other(String),
}

/// Central translation of a pipeline failure into an HTTP status code and
/// client-facing message.
pub fn handle_error(error: &PipelineError) -> (r: (u16, String))
    ensures
        match error {
            PipelineError::Timeout => r.0 == 408 && r.1@ == "request timed out"@,
            PipelineError::Overloaded => r.0 == 503 && r.1@
                == "service is overloaded, try again later"@,
            PipelineError::Other(msg) => r.0 == 500 && r.1@ == "Unhandled internal error: "@
                + msg@,
        },
{
    match error {
        PipelineError::Timeout => (408, String::from_str("request timed out")),
        PipelineError::Overloaded => (
            503,
            String::from_str("service is overloaded, try again later"),
        ),
        PipelineError::Other(msg) => {
            let mut m = String::from_str("Unhandled internal error: ");
            m.append(msg.as_str());
            (500, m)
        },
    }
}

} // verus!
