use rika_firenet_client::auth::{
    is_error_status, is_login_or_logout_request, is_login_redirection, AuthAction, AuthEvent,
    AuthPhase, AuthRetry, OverrideResponseContentTypeHeader,
};
use rika_firenet_client::endpoint::base_url;

fn run(path: &str, events: Vec<AuthEvent>) -> Vec<AuthAction> {
    let (mut machine, first) = AuthRetry::start(path);
    let mut actions = vec![first];
    for event in events {
        if !machine.expects(&event) {
            break;
        }
        actions.push(machine.step(&event));
    }
    actions
}

fn responded(status: u16, location: Option<&str>) -> AuthEvent {
    AuthEvent::Responded { status, location: location.map(|l| l.to_string()) }
}

#[test]
fn login_redirections() {
    assert!(is_login_redirection(401, &None));
    assert!(is_login_redirection(302, &Some("/web/".to_string())));
    assert!(is_login_redirection(302, &Some("/web/login".to_string())));
    assert!(is_login_redirection(302, &Some("401".to_string())));
    assert!(!is_login_redirection(302, &Some("/web/summary".to_string())));
    assert!(!is_login_redirection(302, &None));
    assert!(!is_login_redirection(301, &Some("/web/login".to_string())));
    assert!(!is_login_redirection(200, &None));
}

#[test]
fn session_requests() {
    assert!(is_login_or_logout_request("/web/login"));
    assert!(is_login_or_logout_request("/web/logout"));
    assert!(!is_login_or_logout_request("/web/summary"));
    assert!(!is_login_or_logout_request("/web/login/"));
}

#[test]
fn lost_session_logs_in_once_and_retries_once() {
    for first in [responded(401, None), responded(302, Some("/web/")), responded(302, Some("401"))] {
        let actions = run(
            "/web/summary",
            vec![first, AuthEvent::LoginSucceeded, responded(401, None), AuthEvent::LoginSucceeded],
        );
        assert_eq!(
            actions,
            vec![AuthAction::Send, AuthAction::Login, AuthAction::Send, AuthAction::ReturnResponse]
        );
    }
}

#[test]
fn retry_transport_failure_is_returned() {
    let actions = run(
        "/api/client/12345/status",
        vec![responded(401, None), AuthEvent::LoginSucceeded, AuthEvent::TransportFailed],
    );
    assert_eq!(
        actions,
        vec![AuthAction::Send, AuthAction::Login, AuthAction::Send, AuthAction::ReturnTransportError]
    );
}

#[test]
fn other_redirect_is_returned_without_login() {
    let actions = run("/web/summary", vec![responded(302, Some("/web/stove/12345"))]);
    assert_eq!(actions, vec![AuthAction::Send, AuthAction::ReturnResponse]);
}

#[test]
fn session_request_never_logs_in() {
    for path in ["/web/login", "/web/logout"] {
        let actions = run(path, vec![responded(302, Some("/web/login")), AuthEvent::LoginSucceeded]);
        assert_eq!(actions, vec![AuthAction::Send, AuthAction::ReturnResponse]);
    }
}

#[test]
fn failed_login_is_returned_without_retry() {
    let actions = run("/web/summary", vec![responded(401, None), AuthEvent::LoginFailed]);
    assert_eq!(actions, vec![AuthAction::Send, AuthAction::Login, AuthAction::ReturnLoginError]);
}

#[test]
fn first_transport_failure_is_returned() {
    let actions = run("/web/summary", vec![AuthEvent::TransportFailed]);
    assert_eq!(actions, vec![AuthAction::Send, AuthAction::ReturnTransportError]);
}

#[test]
fn finished_machine_expects_nothing() {
    let (mut machine, _) = AuthRetry::start("/web/summary");
    assert_eq!(machine.step(&responded(200, None)), AuthAction::ReturnResponse);
    assert_eq!(machine.phase, AuthPhase::Finished);
    assert!(!machine.expects(&AuthEvent::LoginSucceeded));
    assert!(!machine.expects(&responded(200, None)));
}

#[test]
fn content_type_is_kept_only_for_json() {
    let header = OverrideResponseContentTypeHeader::new();
    assert_eq!(header.replacement(&Some("application/json".to_string())), None);
    assert_eq!(header.replacement(&Some("application/problem+json; charset=utf-8".to_string())), None);
    assert_eq!(header.replacement(&Some("text/html".to_string())), Some("text/plain"));
    assert_eq!(header.replacement(&Some("application/xml".to_string())), Some("text/plain"));
    assert_eq!(header.replacement(&Some("text/json".to_string())), Some("text/plain"));
    assert_eq!(header.replacement(&None), Some("text/plain"));
}

#[test]
fn error_statuses() {
    assert!(is_error_status(418));
    assert!(is_error_status(500));
    assert!(!is_error_status(302));
    assert!(!is_error_status(200));
}

#[test]
fn should_remove_trailing_slashes_from_base_url() {
    assert_eq!(base_url(Some("http://127.0.0.1:3000///".to_string())), "http://127.0.0.1:3000");
    assert_eq!(base_url(Some("http://localhost".to_string())), "http://localhost");
    assert_eq!(base_url(None), "https://www.rika-firenet.com");
}
