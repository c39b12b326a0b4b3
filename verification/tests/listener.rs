use autosort::AuthError;
use autosort::CallbackOutcome;
use autosort::SessionAction;
use autosort::SessionEvent;
use autosort::SessionState;
use autosort::into_outcome;
use autosort::resolve_wait;
use autosort::session_step;

#[test]
fn request_with_code_resolves_with_it() {
    let (state, action) = session_step(
        SessionState::Pending,
        SessionEvent::Request(b"/?code=ABC123".to_vec()),
    );
    assert_eq!(
        state,
        SessionState::Done(CallbackOutcome::Code(b"ABC123".to_vec()))
    );
    match action {
        SessionAction::Respond(body) => assert!(body.contains("Success")),
        SessionAction::Ignore => panic!("a response is owed to the browser"),
    }
}

#[test]
fn request_without_code_resolves_with_error() {
    let (state, action) = session_step(SessionState::Pending, SessionEvent::Request(b"/".to_vec()));
    assert_eq!(state, SessionState::Done(CallbackOutcome::NoCode));
    match action {
        SessionAction::Respond(body) => assert!(body.contains("Error")),
        SessionAction::Ignore => panic!("a response is owed to the browser"),
    }
    assert_eq!(
        resolve_wait(into_outcome(state)),
        Err(AuthError::ParseError)
    );
}

#[test]
fn no_message_within_deadline_is_a_timeout() {
    assert_eq!(resolve_wait(None), Err(AuthError::TimeoutError));
}

#[test]
fn deadline_event_resolves_pending_session() {
    let (state, action) = session_step(SessionState::Pending, SessionEvent::Deadline);
    assert_eq!(state, SessionState::Done(CallbackOutcome::TimedOut));
    assert_eq!(action, SessionAction::Ignore);
    assert_eq!(
        resolve_wait(into_outcome(state)),
        Err(AuthError::TimeoutError)
    );
}

#[test]
fn bind_failure_resolves_with_bind_error() {
    let (state, action) = session_step(
        SessionState::Pending,
        SessionEvent::BindFailed("port in use".to_string()),
    );
    assert_eq!(
        state,
        SessionState::Done(CallbackOutcome::BindFailed("port in use".to_string()))
    );
    assert_eq!(action, SessionAction::Ignore);
    assert_eq!(
        resolve_wait(into_outcome(state)),
        Err(AuthError::BindError("port in use".to_string()))
    );
}

#[test]
fn only_first_of_two_requests_is_reflected() {
    let (state, _) = session_step(
        SessionState::Pending,
        SessionEvent::Request(b"/?code=first".to_vec()),
    );
    let (state, action) = session_step(state, SessionEvent::Request(b"/?code=second".to_vec()));
    assert_eq!(
        state,
        SessionState::Done(CallbackOutcome::Code(b"first".to_vec()))
    );
    assert_eq!(action, SessionAction::Ignore);
}

#[test]
fn terminal_state_absorbs_every_later_event() {
    let (state, _) = session_step(SessionState::Pending, SessionEvent::Deadline);
    let (state, action) = session_step(state, SessionEvent::Request(b"/?code=late".to_vec()));
    assert_eq!(state, SessionState::Done(CallbackOutcome::TimedOut));
    assert_eq!(action, SessionAction::Ignore);
    let (state, action) = session_step(state, SessionEvent::BindFailed("late".to_string()));
    assert_eq!(state, SessionState::Done(CallbackOutcome::TimedOut));
    assert_eq!(action, SessionAction::Ignore);
}

#[test]
fn captured_code_resolves_as_the_callers_result() {
    let (state, _) = session_step(
        SessionState::Pending,
        SessionEvent::Request(b"/?code=XYZ".to_vec()),
    );
    assert_eq!(resolve_wait(into_outcome(state)), Ok(b"XYZ".to_vec()));
}

#[test]
fn pending_session_has_no_outcome_yet() {
    assert_eq!(into_outcome(SessionState::Pending), None);
}
