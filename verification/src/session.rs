//! The callback session: the decision logic of the one-shot listener.
//!
//! A session is created pending, takes events — the redirect request, a bind
//! failure of the local port, the elapse of the deadline — and reaches
//! exactly one terminal outcome. Only the first request is ever serviced:
//! once the session is terminal, every further event leaves it unchanged and
//! asks for no response. The surrounding program performs the network work
//! (binding the port, reading the request, writing the response, keeping the
//! deadline) and feeds the events in; every decision is taken here.

use vstd::prelude::*;

use crate::errors::AuthError;
use crate::query::code_of_target;
use crate::query::extract_code;

verus! {

/// The terminal outcome of one callback session.
#[derive(Debug, PartialEq, Eq)]
pub enum CallbackOutcome {
    /// The first request carried a `code` parameter: its value, decoded by
    /// the query's parsing and not touched further.
    Code(Vec<u8>),
    /// The first request carried no `code` parameter.
    NoCode,
    /// The local port could not be bound; carries the bind message.
    BindFailed(String),
    /// No request arrived before the deadline.
    TimedOut,
}

/// One outstanding wait for the browser's redirect: pending until its first
/// event, terminal afterwards.
#[derive(Debug, PartialEq, Eq)]
pub enum SessionState {
    Pending,
    Done(CallbackOutcome),
}

/// What the surrounding program observed and hands to the session.
#[derive(Debug, PartialEq, Eq)]
pub enum SessionEvent {
    /// The server could not bind the local port; carries the bind message.
    BindFailed(String),
    /// A request arrived; carries its target, as bytes.
    Request(Vec<u8>),
    /// The deadline elapsed with no request.
    Deadline,
}

/// What the session asks the surrounding program to do in return.
#[derive(Debug, PartialEq, Eq)]
pub enum SessionAction {
    /// Answer the request with this HTML body.
    Respond(String),
    /// Nothing: the event fell on a session already resolved.
    Ignore,
}

/// The HTML page shown on a captured code.
pub fn success_page() -> (r: &'static str)
    ensures
        r@ == success_page_text(),
{
    "<html><body><h1>Success!</h1><p>You can close this window and return to AutoSort.</p><script>window.close();</script></body></html>"
}

/// The view of the page shown on a captured code.
pub open spec fn success_page_text() -> Seq<char> {
    "<html><body><h1>Success!</h1><p>You can close this window and return to AutoSort.</p><script>window.close();</script></body></html>"@
}

/// The HTML page shown when the request carried no code.
pub fn failure_page() -> (r: &'static str)
    ensures
        r@ == failure_page_text(),
{
    "<html><body><h1>Error</h1><p>Authentication failed. Please try again.</p></body></html>"
}

/// The view of the page shown when the request carried no code.
pub open spec fn failure_page_text() -> Seq<char> {
    "<html><body><h1>Error</h1><p>Authentication failed. Please try again.</p></body></html>"@
}

/// How one step of the session relates states, the event, and the action:
/// a terminal state absorbs every event; a pending one resolves on any
/// event, answering a request with the page that matches what its target
/// carried.
pub open spec fn step_spec(
    s: SessionState,
    e: SessionEvent,
    s2: SessionState,
    a: SessionAction,
) -> bool {
    match s {
        SessionState::Done(_) => s2 == s && a is Ignore,
        SessionState::Pending => match e {
            SessionEvent::BindFailed(m) => s2 == SessionState::Done(
                CallbackOutcome::BindFailed(m),
            ) && a is Ignore,
            SessionEvent::Deadline => s2 == SessionState::Done(CallbackOutcome::TimedOut)
                && a is Ignore,
            SessionEvent::Request(t) => match code_of_target(t@) {
                Some(c) => (s2 matches SessionState::Done(CallbackOutcome::Code(v)) && v@ == c) && (
                a matches SessionAction::Respond(b) && b@ == success_page_text()),
                None => s2 == SessionState::Done(CallbackOutcome::NoCode) && (
                a matches SessionAction::Respond(b) && b@ == failure_page_text()),
            },
        },
    }
}

/// Takes one event on a session and returns the next state and the action
/// owed for it, exactly as `step_spec` relates them.
pub fn session_step(s: SessionState, e: SessionEvent) -> (r: (SessionState, SessionAction))
    ensures
        step_spec(s, e, r.0, r.1),
{
    match s {
        SessionState::Done(o) => (SessionState::Done(o), SessionAction::Ignore),
        SessionState::Pending => match e {
            SessionEvent::BindFailed(m) => (
                SessionState::Done(CallbackOutcome::BindFailed(m)),
                SessionAction::Ignore,
            ),
            SessionEvent::Deadline => (
                SessionState::Done(CallbackOutcome::TimedOut),
                SessionAction::Ignore,
            ),
            SessionEvent::Request(t) => match extract_code(t.as_slice()) {
                Some(code) => (
                    SessionState::Done(CallbackOutcome::Code(code)),
                    SessionAction::Respond(success_page().to_string()),
                ),
                None => (
                    SessionState::Done(CallbackOutcome::NoCode),
                    SessionAction::Respond(failure_page().to_string()),
                ),
            },
        },
    }
}

/// The outcome a terminal session reached, `None` while it is pending.
pub fn into_outcome(s: SessionState) -> (r: Option<CallbackOutcome>)
    ensures
        s is Pending ==> r is None,
        s matches SessionState::Done(o) ==> r == Some(o),
{
    match s {
        SessionState::Pending => None,
        SessionState::Done(o) => Some(o),
    }
}

/// How an outcome reads as the caller-facing result: the captured code, or
/// the error that names what went wrong.
pub open spec fn outcome_resolves(o: CallbackOutcome, r: Result<Vec<u8>, AuthError>) -> bool {
    match o {
        CallbackOutcome::Code(c) => r == Result::<Vec<u8>, AuthError>::Ok(c),
        CallbackOutcome::NoCode => r == Result::<Vec<u8>, AuthError>::Err(AuthError::ParseError),
        CallbackOutcome::BindFailed(m) => r == Result::<Vec<u8>, AuthError>::Err(
            AuthError::BindError(m),
        ),
        CallbackOutcome::TimedOut => r == Result::<Vec<u8>, AuthError>::Err(
            AuthError::TimeoutError,
        ),
    }
}

/// Turns the outcome the wait observed into the caller's result: the code
/// when one was captured, and otherwise the error that names what went
/// wrong; no outcome at all within the deadline is the timeout.
pub fn resolve_wait(received: Option<CallbackOutcome>) -> (r: Result<Vec<u8>, AuthError>)
    ensures
        received is None ==> r == Result::<Vec<u8>, AuthError>::Err(AuthError::TimeoutError),
        received matches Some(o) ==> outcome_resolves(o, r),
{
    match received {
        None => Err(AuthError::TimeoutError),
        Some(CallbackOutcome::Code(c)) => Ok(c),
        Some(CallbackOutcome::NoCode) => Err(AuthError::ParseError),
        Some(CallbackOutcome::BindFailed(m)) => Err(AuthError::BindError(m)),
        Some(CallbackOutcome::TimedOut) => Err(AuthError::TimeoutError),
    }
}

/// A captured code is what the caller receives: when the first event of a
/// pending session is a request whose target carries a code, and the
/// session's outcome resolves as `outcome_resolves` names it, the caller's
/// result is `Ok` of exactly that code — and the browser is answered with
/// the success page.
pub proof fn lemma_captured_code_reaches_caller(
    t: Vec<u8>,
    s2: SessionState,
    a: SessionAction,
    r: Result<Vec<u8>, AuthError>,
)
    requires
        step_spec(SessionState::Pending, SessionEvent::Request(t), s2, a),
        code_of_target(t@) is Some,
        s2 matches SessionState::Done(o) ==> outcome_resolves(o, r),
    ensures
        r matches Ok(v) && v@ == code_of_target(t@).unwrap(),
        a matches SessionAction::Respond(b) && b@ == success_page_text(),
{
}

/// A request without a code fails the caller: when the first event of a
/// pending session is a request whose target carries none, the caller's
/// result is the parse error — and the browser is answered with the
/// failure page.
pub proof fn lemma_missing_code_reaches_caller(
    t: Vec<u8>,
    s2: SessionState,
    a: SessionAction,
    r: Result<Vec<u8>, AuthError>,
)
    requires
        step_spec(SessionState::Pending, SessionEvent::Request(t), s2, a),
        code_of_target(t@) is None,
        s2 matches SessionState::Done(o) ==> outcome_resolves(o, r),
    ensures
        r == Result::<Vec<u8>, AuthError>::Err(AuthError::ParseError),
        a matches SessionAction::Respond(b) && b@ == failure_page_text(),
{
}

/// A resolved session never resolves again: whatever event arrives after
/// the terminal state is reached, the state stands unchanged and no further
/// response is owed.
pub proof fn lemma_terminal_state_is_stable(
    s: SessionState,
    e: SessionEvent,
    s2: SessionState,
    a: SessionAction,
)
    requires
        s is Done,
        step_spec(s, e, s2, a),
    ensures
        s2 == s,
        a is Ignore,
{
}

/// Every event resolves a pending session: one step always reaches a
/// terminal state, so a session takes exactly one of its terminal outcomes.
pub proof fn lemma_pending_resolves(
    s: SessionState,
    e: SessionEvent,
    s2: SessionState,
    a: SessionAction,
)
    requires
        s is Pending,
        step_spec(s, e, s2, a),
    ensures
        s2 is Done,
{
}

} // verus!
