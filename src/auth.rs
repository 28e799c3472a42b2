//! Session handling around every request to the portal: telling a lost
//! session from an ordinary answer, logging in again once, and sending the
//! request once more.
//!
//! The decisions are made by [`AuthRetry`], a state machine fed with what
//! happened to the request; the caller performs the actions it returns
//! (send, log in, hand back the outcome).
use vstd::prelude::*;

use crate::model::text_of;
use crate::text::{has_infix, has_prefix, same_text, text_contains, text_starts_with};

verus! {

/// The portal's login endpoint.
pub const LOGIN_PATH: &'static str = "/web/login";

/// The portal's logout endpoint.
pub const LOGOUT_PATH: &'static str = "/web/logout";

/// The portal's root web path, where it sends clients without a session.
pub const ROOT_WEB_PATH: &'static str = "/web/";

/// What the portal puts in place of a location for an AJAX call without a
/// session.
pub const UNAUTHENTICATED_AJAX_LOCATION: &'static str = "401";

/// The content type given to answers that do not declare JSON.
pub const FALLBACK_CONTENT_TYPE: &'static str = "text/plain";

/// A request to one of the two session endpoints.
pub open spec fn is_session_path(path: Seq<char>) -> bool {
    path == LOGIN_PATH@ || path == LOGOUT_PATH@
}

/// A redirect location that means "log in first".
pub open spec fn is_login_location(location: Seq<char>) -> bool {
    location == ROOT_WEB_PATH@ || location == LOGIN_PATH@ || location
        == UNAUTHENTICATED_AJAX_LOCATION@
}

/// An answer that means the session is no longer valid: 401, or a 302 to
/// one of the login locations.
pub open spec fn redirects_to_login(status: u16, location: Option<Seq<char>>) -> bool {
    ||| status == 401
    ||| status == 302 && (location matches Some(l) && is_login_location(l))
}

/// A content type that declares JSON.
pub open spec fn is_json_content_type(content_type: Seq<char>) -> bool {
    has_prefix(content_type, "application"@) && has_infix(content_type, "json"@)
}

/// Whether a request to `path` logs in or out.
pub fn is_login_or_logout_request(path: &str) -> (r: bool)
    ensures
        r == is_session_path(path@),
{
    same_text(path, LOGIN_PATH) || same_text(path, LOGOUT_PATH)
}

/// Whether an answer with `status` and `Location` header `location` means
/// that the session is no longer valid.
pub fn is_login_redirection(status: u16, location: &Option<String>) -> (r: bool)
    ensures
        r == redirects_to_login(status, text_of(*location)),
{
    if status == 401 {
        return true;
    }
    if status != 302 {
        return false;
    }
    match location {
        Some(l) => {
            let l = l.as_str();
            same_text(l, ROOT_WEB_PATH) || same_text(l, LOGIN_PATH) || same_text(
                l,
                UNAUTHENTICATED_AJAX_LOCATION,
            )
        },
        None => false,
    }
}

/// Whether an answer's status reports a failure: a client or server error.
pub fn is_error_status(status: u16) -> (r: bool)
    ensures
        r == (400 <= status < 600),
{
    400 <= status && status < 600
}

/// Corrects the content type of the portal's answers, which some answers
/// leave out or get wrong, so that only JSON is read as JSON.
pub struct OverrideResponseContentTypeHeader {}

impl OverrideResponseContentTypeHeader {
    pub fn new() -> (r: OverrideResponseContentTypeHeader) {
        OverrideResponseContentTypeHeader {  }
    }

    /// The content type to put in place of an answer's `content_type`, or
    /// none to keep it: an answer keeps its content type only when it
    /// declares JSON.
    pub fn replacement(&self, content_type: &Option<String>) -> (r: Option<&'static str>)
        ensures
            r is None <==> (content_type matches Some(c) && is_json_content_type(c@)),
            r matches Some(t) ==> t@ == FALLBACK_CONTENT_TYPE@,
    {
        match content_type {
            Some(c) => {
                let c = c.as_str();
                if text_starts_with(c, "application") && text_contains(c, "json") {
                    None
                } else {
                    Some(FALLBACK_CONTENT_TYPE)
                }
            },
            None => Some(FALLBACK_CONTENT_TYPE),
        }
    }
}

/// Where a request stands in the session handling.
#[derive(Clone, Copy, Debug, PartialEq, Eq, Structural)]
pub enum AuthPhase {
    /// Sent for the first time; its outcome is awaited.
    AwaitingResponse,
    /// The session was lost; the login's outcome is awaited.
    AwaitingLogin,
    /// Sent again after logging in; its outcome is awaited.
    AwaitingRetryResponse,
    /// Its outcome has been handed back.
    Finished,
}

/// What happened to the last action.
#[derive(Clone, Debug)]
pub enum AuthEvent {
    /// The request was answered with `status` and `Location` header
    /// `location`.
    Responded { status: u16, location: Option<String> },
    /// The request could not be sent or answered.
    TransportFailed,
    LoginSucceeded,
    LoginFailed,
}

/// What the caller is to do next.
#[derive(Clone, Copy, Debug, PartialEq, Eq, Structural)]
pub enum AuthAction {
    /// Send the request (again).
    Send,
    /// Log in with the held credentials.
    Login,
    /// Hand back the answer just received, unchanged.
    ReturnResponse,
    /// Hand back the transport's failure.
    ReturnTransportError,
    /// Hand back the failure of the login.
    ReturnLoginError,
}

/// The session handling of one request.
#[derive(Clone, Copy, Debug, PartialEq, Eq, Structural)]
pub struct AuthRetry {
    /// The request itself logs in or out, and so never leads to a login.
    pub session_request: bool,
    pub phase: AuthPhase,
}

/// The state of a request to `path` once it has been sent.
pub open spec fn initial_state(path: Seq<char>) -> AuthRetry {
    AuthRetry { session_request: is_session_path(path), phase: AuthPhase::AwaitingResponse }
}

/// Whether `event` can follow the last action taken in state `s`.
pub open spec fn accepts(s: AuthRetry, event: AuthEvent) -> bool {
    match s.phase {
        AuthPhase::AwaitingResponse | AuthPhase::AwaitingRetryResponse => event is Responded
            || event is TransportFailed,
        AuthPhase::AwaitingLogin => event is LoginSucceeded || event is LoginFailed,
        AuthPhase::Finished => false,
    }
}

/// The next state and action after `event` in state `s`. Only a first
/// answer that means the session was lost, to a request that does not
/// itself log in or out, leads to a login; every other answer is handed
/// back.
pub open spec fn transition(s: AuthRetry, event: AuthEvent) -> (AuthRetry, AuthAction) {
    let finished = AuthRetry { session_request: s.session_request, phase: AuthPhase::Finished };
    match event {
        AuthEvent::Responded { status, location } => {
            if s.phase == AuthPhase::AwaitingResponse && !s.session_request && redirects_to_login(
                status,
                text_of(location),
            ) {
                (
                    AuthRetry { session_request: s.session_request, phase: AuthPhase::AwaitingLogin },
                    AuthAction::Login,
                )
            } else {
                (finished, AuthAction::ReturnResponse)
            }
        },
        AuthEvent::TransportFailed => (finished, AuthAction::ReturnTransportError),
        AuthEvent::LoginSucceeded => (
            AuthRetry {
                session_request: s.session_request,
                phase: AuthPhase::AwaitingRetryResponse,
            },
            AuthAction::Send,
        ),
        AuthEvent::LoginFailed => (finished, AuthAction::ReturnLoginError),
    }
}

/// The actions taken from state `s` as `events` happen, up to the first
/// event that the state does not expect.
pub open spec fn run(s: AuthRetry, events: Seq<AuthEvent>) -> Seq<AuthAction>
    decreases events.len(),
{
    if events.len() == 0 || !accepts(s, events[0]) {
        Seq::empty()
    } else {
        let (next, action) = transition(s, events[0]);
        seq![action] + run(next, events.drop_first())
    }
}

/// Every action taken for a request to `path` whose outcomes are `events`,
/// starting with its first sending.
pub open spec fn actions_for(path: Seq<char>, events: Seq<AuthEvent>) -> Seq<AuthAction> {
    seq![AuthAction::Send] + run(initial_state(path), events)
}

/// The action that hands back the outcome of the second sending.
pub open spec fn outcome_action(event: AuthEvent) -> AuthAction {
    if event is Responded {
        AuthAction::ReturnResponse
    } else {
        AuthAction::ReturnTransportError
    }
}

proof fn lemma_run_step(s: AuthRetry, first: AuthEvent, rest: Seq<AuthEvent>)
    requires
        accepts(s, first),
    ensures
        run(s, seq![first] + rest) == seq![transition(s, first).1] + run(
            transition(s, first).0,
            rest,
        ),
{
    let events = seq![first] + rest;
    assert(events[0] == first);
    assert(events.drop_first() =~= rest);
}

proof fn lemma_run_finished(s: AuthRetry, events: Seq<AuthEvent>)
    requires
        s.phase == AuthPhase::Finished,
    ensures
        run(s, events) == Seq::<AuthAction>::empty(),
{
}

/// A request that is not itself a login or logout, and whose first answer
/// means the session was lost, leads to exactly one login and, once that
/// succeeds, exactly one more sending, whose outcome is handed back
/// whatever it is.
pub proof fn lemma_lost_session_logs_in_once_and_retries_once(
    path: Seq<char>,
    status: u16,
    location: Option<String>,
    retry_outcome: AuthEvent,
    later: Seq<AuthEvent>,
)
    requires
        !is_session_path(path),
        redirects_to_login(status, text_of(location)),
        retry_outcome is Responded || retry_outcome is TransportFailed,
    ensures
        actions_for(
            path,
            seq![AuthEvent::Responded { status, location }, AuthEvent::LoginSucceeded, retry_outcome]
                + later,
        ) == seq![
            AuthAction::Send,
            AuthAction::Login,
            AuthAction::Send,
            outcome_action(retry_outcome),
        ],
{
    let first = AuthEvent::Responded { status, location };
    let s0 = initial_state(path);
    let (s1, a1) = transition(s0, first);
    let (s2, a2) = transition(s1, AuthEvent::LoginSucceeded);
    let (s3, a3) = transition(s2, retry_outcome);
    assert(seq![first, AuthEvent::LoginSucceeded, retry_outcome] + later =~= seq![first] + (seq![
        AuthEvent::LoginSucceeded,
    ] + (seq![retry_outcome] + later)));
    lemma_run_step(s0, first, seq![AuthEvent::LoginSucceeded] + (seq![retry_outcome] + later));
    lemma_run_step(s1, AuthEvent::LoginSucceeded, seq![retry_outcome] + later);
    lemma_run_step(s2, retry_outcome, later);
    lemma_run_finished(s3, later);
    assert(actions_for(
        path,
        seq![first, AuthEvent::LoginSucceeded, retry_outcome] + later,
    ) =~= seq![AuthAction::Send, a1, a2, a3]);
}

/// A 302 answer to a location that is not a login location is handed back
/// as it came, without a login.
pub proof fn lemma_other_redirect_is_returned(
    path: Seq<char>,
    location: Option<String>,
    later: Seq<AuthEvent>,
)
    requires
        !(text_of(location) matches Some(l) && is_login_location(l)),
    ensures
        actions_for(path, seq![AuthEvent::Responded { status: 302, location }] + later) == seq![
            AuthAction::Send,
            AuthAction::ReturnResponse,
        ],
{
    let first = AuthEvent::Responded { status: 302, location };
    let s0 = initial_state(path);
    lemma_run_step(s0, first, later);
    lemma_run_finished(transition(s0, first).0, later);
    assert(actions_for(path, seq![first] + later) =~= seq![
        AuthAction::Send,
        AuthAction::ReturnResponse,
    ]);
}

/// A login or logout request never leads to a login, whatever its answer.
pub proof fn lemma_session_request_never_logs_in(
    path: Seq<char>,
    status: u16,
    location: Option<String>,
    later: Seq<AuthEvent>,
)
    requires
        is_session_path(path),
    ensures
        actions_for(path, seq![AuthEvent::Responded { status, location }] + later) == seq![
            AuthAction::Send,
            AuthAction::ReturnResponse,
        ],
{
    let first = AuthEvent::Responded { status, location };
    let s0 = initial_state(path);
    lemma_run_step(s0, first, later);
    lemma_run_finished(transition(s0, first).0, later);
    assert(actions_for(path, seq![first] + later) =~= seq![
        AuthAction::Send,
        AuthAction::ReturnResponse,
    ]);
}

/// When the login fails, the request is not sent again and the login's
/// failure is what is handed back.
pub proof fn lemma_failed_login_is_returned_without_retry(
    path: Seq<char>,
    status: u16,
    location: Option<String>,
    later: Seq<AuthEvent>,
)
    requires
        !is_session_path(path),
        redirects_to_login(status, text_of(location)),
    ensures
        actions_for(
            path,
            seq![AuthEvent::Responded { status, location }, AuthEvent::LoginFailed] + later,
        ) == seq![AuthAction::Send, AuthAction::Login, AuthAction::ReturnLoginError],
{
    let first = AuthEvent::Responded { status, location };
    let s0 = initial_state(path);
    let (s1, a1) = transition(s0, first);
    let (s2, a2) = transition(s1, AuthEvent::LoginFailed);
    assert(seq![first, AuthEvent::LoginFailed] + later =~= seq![first] + (seq![
        AuthEvent::LoginFailed,
    ] + later));
    lemma_run_step(s0, first, seq![AuthEvent::LoginFailed] + later);
    lemma_run_step(s1, AuthEvent::LoginFailed, later);
    lemma_run_finished(s2, later);
    assert(actions_for(path, seq![first, AuthEvent::LoginFailed] + later) =~= seq![
        AuthAction::Send,
        a1,
        a2,
    ]);
}

impl AuthRetry {
    /// Starts the handling of a request to `path`: it is to be sent.
    pub fn start(path: &str) -> (r: (AuthRetry, AuthAction))
        ensures
            r.0 == initial_state(path@),
            r.1 == AuthAction::Send,
    {
        let session_request = is_login_or_logout_request(path);
        (AuthRetry { session_request, phase: AuthPhase::AwaitingResponse }, AuthAction::Send)
    }

    /// Whether `event` can follow the last action taken.
    pub fn expects(&self, event: &AuthEvent) -> (r: bool)
        ensures
            r == accepts(*self, *event),
    {
        match self.phase {
            AuthPhase::AwaitingResponse | AuthPhase::AwaitingRetryResponse => match event {
                AuthEvent::Responded { .. } | AuthEvent::TransportFailed => true,
                _ => false,
            },
            AuthPhase::AwaitingLogin => match event {
                AuthEvent::LoginSucceeded | AuthEvent::LoginFailed => true,
                _ => false,
            },
            AuthPhase::Finished => false,
        }
    }

    /// Takes in what happened to the last action and returns the next one.
    pub fn step(&mut self, event: &AuthEvent) -> (action: AuthAction)
        requires
            accepts(*old(self), *event),
        ensures
            (*final(self), action) == transition(*old(self), *event),
    {
        match event {
            AuthEvent::Responded { status, location } => {
                if self.phase == AuthPhase::AwaitingResponse && !self.session_request
                    && is_login_redirection(*status, location) {
                    self.phase = AuthPhase::AwaitingLogin;
                    AuthAction::Login
                } else {
                    self.phase = AuthPhase::Finished;
                    AuthAction::ReturnResponse
                }
            },
            AuthEvent::TransportFailed => {
                self.phase = AuthPhase::Finished;
                AuthAction::ReturnTransportError
            },
            AuthEvent::LoginSucceeded => {
                self.phase = AuthPhase::AwaitingRetryResponse;
                AuthAction::Send
            },
            AuthEvent::LoginFailed => {
                self.phase = AuthPhase::Finished;
                AuthAction::ReturnLoginError
            },
        }
    }
}

} // verus!
