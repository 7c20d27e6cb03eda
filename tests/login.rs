use librus_export::authentication::{
    authenticate, AuthAction, HttpMethod, HttpOutcome, HttpRequest, LoginFlow, AUTH_URL1,
    AUTH_URL2, GRANT_URL, MSG_URL,
};
use librus_export::error::AuthError;

fn ok(body: &str) -> HttpOutcome {
    HttpOutcome::Response { success: true, body: body.to_string() }
}

fn send(flow: &mut LoginFlow, outcome: HttpOutcome) -> HttpRequest {
    match flow.advance(outcome) {
        AuthAction::Send(req) => req,
        AuthAction::Done(r) => panic!("handshake ended early: {:?}", r),
    }
}

fn done(flow: &mut LoginFlow, outcome: HttpOutcome) -> Result<(), AuthError> {
    match flow.advance(outcome) {
        AuthAction::Done(r) => r,
        AuthAction::Send(req) => panic!("handshake went on to {}", req.url),
    }
}

#[test]
fn handshake_sends_four_requests_in_order() {
    let (mut flow, first) = authenticate("jan", "secret");
    assert_eq!(first.method, HttpMethod::Get);
    assert_eq!(first.url, AUTH_URL1);
    let login = send(&mut flow, ok("<html/>"));
    assert_eq!(login.method, HttpMethod::PostForm);
    assert_eq!(login.url, AUTH_URL2);
    assert_eq!(
        login.form,
        vec![
            ("action".to_string(), "login".to_string()),
            ("login".to_string(), "jan".to_string()),
            ("pass".to_string(), "secret".to_string()),
        ]
    );
    let grant = send(&mut flow, ok("{}"));
    assert_eq!(grant.url, GRANT_URL);
    let exchange = send(&mut flow, ok("{\"goTo\":\"x\"}"));
    assert_eq!(exchange.url, MSG_URL);
    assert_eq!(exchange.method, HttpMethod::Get);
    assert!(done(&mut flow, ok("ignored")).is_ok());
    assert!(flow.is_finished());
}

#[test]
fn wrong_password_is_invalid_credentials() {
    let (mut flow, _) = authenticate("jan", "wrong");
    send(&mut flow, ok(""));
    let r = done(&mut flow, HttpOutcome::Response { success: false, body: "denied".to_string() });
    assert!(matches!(r, Err(AuthError::InvalidCredentials)));
    assert!(flow.is_finished());
}

#[test]
fn grant_error_is_grant_denied_with_body() {
    let (mut flow, _) = authenticate("jan", "secret");
    send(&mut flow, ok(""));
    send(&mut flow, ok(""));
    let body = "{\"error\":\"invalid_grant\"}";
    match done(&mut flow, ok(body)) {
        Err(AuthError::GrantDenied(b)) => assert_eq!(b, body),
        other => panic!("expected a denied grant, got {:?}", other),
    }
}

#[test]
fn unreachable_portal_is_connectivity() {
    let (mut flow, _) = authenticate("jan", "secret");
    assert!(matches!(done(&mut flow, HttpOutcome::Unreachable), Err(AuthError::Connectivity)));
    let (mut flow2, _) = authenticate("jan", "secret");
    send(&mut flow2, ok(""));
    send(&mut flow2, ok(""));
    send(&mut flow2, ok(""));
    assert!(matches!(done(&mut flow2, HttpOutcome::Unreachable), Err(AuthError::Connectivity)));
}

#[test]
fn first_step_status_is_not_checked() {
    let (mut flow, _) = authenticate("jan", "secret");
    let req = send(&mut flow, HttpOutcome::Response { success: false, body: String::new() });
    assert_eq!(req.url, AUTH_URL2);
}
