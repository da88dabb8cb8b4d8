use native_bridge::auth::AuthError;
use native_bridge::auth::AuthListenerSession;
use native_bridge::auth::SessionState;
use native_bridge::auth::build_request_url;
use native_bridge::auth::confirmation_body;

const BODY: &str = "Login successful! You can close this window now and return to the application.";

fn listening(port: u16) -> AuthListenerSession {
    let mut s = AuthListenerSession::new(port);
    assert_eq!(s.state, SessionState::Starting);
    assert!(s.on_bind(true).is_ok());
    assert_eq!(s.state, SessionState::Listening);
    s
}

#[test]
fn confirmation_body_is_fixed() {
    assert_eq!(confirmation_body(), BODY);
}

#[test]
fn request_url_is_rebuilt_from_port_and_path() {
    assert_eq!(build_request_url(443, "/cb?x=1"), "http://127.0.0.1:443/cb?x=1");
    assert_eq!(build_request_url(0, "/"), "http://127.0.0.1:0/");
    assert_eq!(build_request_url(65535, ""), "http://127.0.0.1:65535");
}

#[test]
fn redirect_with_code_emits_one_event_and_completes() {
    let mut s = listening(8080);
    let outcome = s.on_request("/?code=ABC123");
    let event = outcome.event.expect("a redirect with a code emits the event");
    assert_eq!(event.name, "google-auth-code");
    assert_eq!(event.payload.as_deref(), Some("ABC123"));
    assert_eq!(outcome.response_body, BODY);
    assert_eq!(s.state, SessionState::Completed);
}

#[test]
fn code_value_is_percent_decoded() {
    let mut s = listening(8080);
    let outcome = s.on_request("/?code=ABC%20123%2Fx");
    let event = outcome.event.expect("a redirect with a code emits the event");
    assert_eq!(event.payload.as_deref(), Some("ABC 123/x"));
}

#[test]
fn first_code_parameter_wins() {
    let mut s = listening(8080);
    let outcome = s.on_request("/?state=s&code=first&code=second");
    let event = outcome.event.expect("a redirect with a code emits the event");
    assert_eq!(event.payload.as_deref(), Some("first"));
}

#[test]
fn code_lookup_is_case_sensitive() {
    let mut s = listening(8080);
    let outcome = s.on_request("/?Code=ABC123");
    assert!(outcome.event.is_none());
    assert_eq!(s.state, SessionState::Failed);
}

#[test]
fn redirect_without_code_emits_nothing_but_still_answers() {
    let mut s = listening(8080);
    let outcome = s.on_request("/?error=access_denied");
    assert!(outcome.event.is_none());
    assert_eq!(outcome.response_body, BODY);
    assert_eq!(s.state, SessionState::Failed);
}

#[test]
fn bare_path_without_query_fails_silently() {
    let mut s = listening(8080);
    let outcome = s.on_request("/callback");
    assert!(outcome.event.is_none());
    assert_eq!(outcome.response_body, BODY);
    assert_eq!(s.state, SessionState::Failed);
}

#[test]
fn bind_failure_is_synchronous_and_emits_nothing() {
    let mut s = AuthListenerSession::new(8080);
    let r = s.on_bind(false);
    assert_eq!(r, Err(AuthError::BindFailure));
    assert_eq!(s.state, SessionState::Failed);
}

#[test]
fn receive_error_fails_silently() {
    let mut s = listening(8080);
    s.on_receive_error();
    assert_eq!(s.state, SessionState::Failed);
}

#[test]
fn two_sessions_are_independent() {
    let mut first = listening(8080);
    let mut second = listening(9090);

    let outcome = first.on_request("/?code=ONE");
    assert_eq!(outcome.event.unwrap().payload.as_deref(), Some("ONE"));
    assert_eq!(first.state, SessionState::Completed);

    // The other session is untouched and still serves its own request.
    assert_eq!(second.state, SessionState::Listening);
    assert_eq!(second.port, 9090);
    let outcome2 = second.on_request("/?other=1");
    assert!(outcome2.event.is_none());
    assert_eq!(second.state, SessionState::Failed);
    assert_eq!(first.state, SessionState::Completed);
}

#[test]
fn port_already_bound_by_another_process_fails_to_bind() {
    // Hold a real loopback port with one server, then let a second session
    // observe that the same port cannot be bound again.
    let holder = tiny_http::Server::http("127.0.0.1:0").expect("an ephemeral port binds");
    let port = holder.server_addr().to_ip().expect("loopback address").port();

    let second_bind = tiny_http::Server::http(("127.0.0.1", port));
    let mut s = AuthListenerSession::new(port);
    let r = s.on_bind(second_bind.is_ok());
    assert_eq!(r, Err(AuthError::BindFailure));
    assert_eq!(s.state, SessionState::Failed);
}
