use minecraft_essentials::capture::{
    bind_address, classify, CaptureAction, CaptureEvent, CaptureServer, Phase,
};
use minecraft_essentials::errors::AuthErrors;
use minecraft_essentials::query::OuathInfo;

fn listening() -> CaptureServer {
    let mut server = CaptureServer::new();
    assert!(matches!(server.step(CaptureEvent::Bound), CaptureAction::Listen));
    server
}

fn request(code: &str) -> CaptureEvent {
    CaptureEvent::Received(
        format!("GET /?code={}&state=12345 HTTP/1.1\r\nHost: localhost\r\n\r\n", code).into_bytes(),
    )
}

#[test]
fn listener_binds_the_loopback_address() {
    assert_eq!(bind_address(8000), "127.0.0.1:8000");
    assert_eq!(bind_address(0), "127.0.0.1:0");
    assert_eq!(bind_address(65535), "127.0.0.1:65535");
}

#[test]
fn new_listener_is_binding_and_then_listens() {
    let mut server = CaptureServer::new();
    assert_eq!(server.phase(), Phase::Binding);
    assert!(matches!(server.step(request("early")), CaptureAction::Ignore));
    assert_eq!(server.phase(), Phase::Binding);
    assert!(matches!(server.step(CaptureEvent::Bound), CaptureAction::Listen));
    assert_eq!(server.phase(), Phase::Listening);
}

#[test]
fn bind_failure_is_final() {
    let mut server = CaptureServer::new();
    match server.step(CaptureEvent::BindFailed("in use".to_string())) {
        CaptureAction::Fail(AuthErrors::BindError(words)) => {
            assert_eq!(words, "failed to bind listener; err = in use")
        },
        other => panic!("unexpected: {:?}", other),
    }
    assert_eq!(server.phase(), Phase::Failed);
    assert!(matches!(server.step(CaptureEvent::Bound), CaptureAction::Ignore));
    assert!(matches!(server.step(request("late")), CaptureAction::Ignore));
    assert_eq!(server.phase(), Phase::Failed);
}

#[test]
fn failures_of_single_connections_are_reported_and_the_listener_goes_on() {
    let mut server = listening();
    match server.step(CaptureEvent::AcceptFailed("reset".to_string())) {
        CaptureAction::Report(AuthErrors::AcceptError(words)) => {
            assert_eq!(words, "failed to accept connection; err = reset")
        },
        other => panic!("unexpected: {:?}", other),
    }
    match server.step(CaptureEvent::ReadFailed("eof".to_string())) {
        CaptureAction::Report(AuthErrors::SocketReadError(words)) => {
            assert_eq!(words, "failed to read from socket; err = eof")
        },
        other => panic!("unexpected: {:?}", other),
    }
    match server.step(CaptureEvent::Received(b"GET /favicon.ico HTTP/1.1\r\n".to_vec())) {
        CaptureAction::Report(AuthErrors::MalformedRequest(words)) => {
            assert_eq!(words, "No query string found")
        },
        other => panic!("unexpected: {:?}", other),
    }
    assert_eq!(server.phase(), Phase::Listening);
    assert!(matches!(server.step(CaptureEvent::Awaited), CaptureAction::Pending));
    assert!(matches!(server.step(request("abc")), CaptureAction::Wake));
}

#[test]
fn of_several_valid_requests_exactly_the_first_is_delivered() {
    let mut server = listening();
    assert!(matches!(server.step(request("first")), CaptureAction::Wake));
    assert_eq!(server.phase(), Phase::Delivered);
    assert!(matches!(server.step(request("second")), CaptureAction::Dropped));
    assert!(matches!(server.step(request("third")), CaptureAction::Dropped));
    assert_eq!(server.phase(), Phase::Delivered);
    match server.step(CaptureEvent::Awaited) {
        CaptureAction::Finish(Ok(info)) => {
            assert_eq!(info.code, Some("first".to_string()));
            assert_eq!(info.state, Some("12345".to_string()));
        },
        other => panic!("unexpected: {:?}", other),
    }
    assert_eq!(server.phase(), Phase::Terminated);
    assert!(matches!(server.step(CaptureEvent::Awaited), CaptureAction::Ignore));
    assert!(matches!(server.step(request("fourth")), CaptureAction::Ignore));
}

#[test]
fn malformed_request_after_delivery_is_still_reported() {
    let mut server = listening();
    assert!(matches!(server.step(request("first")), CaptureAction::Wake));
    assert!(matches!(
        server.step(CaptureEvent::Received(b"nothing".to_vec())),
        CaptureAction::Report(AuthErrors::MalformedRequest(_))
    ));
    assert_eq!(server.phase(), Phase::Delivered);
}

#[test]
fn delivered_provider_error_fails_the_wait() {
    let mut server = listening();
    let bytes =
        b"GET /?error=access_denied&error_description=User%20declined&state=12345 HTTP/1.1\r\n"
            .to_vec();
    assert!(matches!(server.step(CaptureEvent::Received(bytes)), CaptureAction::Wake));
    match server.step(CaptureEvent::Awaited) {
        CaptureAction::Finish(Err(AuthErrors::AuthenticationFailure(words))) => {
            assert_eq!(words, "User declined")
        },
        other => panic!("unexpected: {:?}", other),
    }
    assert_eq!(server.phase(), Phase::Terminated);
}

#[test]
fn cancel_terminates_and_empties_the_slot() {
    let mut server = listening();
    assert!(matches!(server.step(request("first")), CaptureAction::Wake));
    server.cancel();
    assert_eq!(server.phase(), Phase::Terminated);
    assert!(matches!(server.step(CaptureEvent::Awaited), CaptureAction::Ignore));
}

#[test]
fn classify_needs_both_error_and_words() {
    let both = OuathInfo {
        code: None,
        state: None,
        error: Some("access_denied".to_string()),
        error_description: Some("User declined".to_string()),
    };
    assert!(matches!(classify(both), Err(AuthErrors::AuthenticationFailure(w)) if w == "User declined"));
    let no_words = OuathInfo {
        code: Some("c".to_string()),
        state: None,
        error: Some("access_denied".to_string()),
        error_description: Some(String::new()),
    };
    assert_eq!(classify(no_words).unwrap().code, Some("c".to_string()));
    let clean = OuathInfo { code: Some("c".to_string()), state: None, error: None, error_description: None };
    assert!(classify(clean).is_ok());
}
