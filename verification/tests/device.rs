use minecraft_essentials::device::{
    device_code_request, device_token_request, verdict, AuthenticationResponse, CodeResponse,
    DevicePoller, PollAction, PollBody, PollEvent, PollPhase, Verdict,
};
use minecraft_essentials::errors::{AuthErrors, Stage};
use minecraft_essentials::exchange::{Reply, SCOPE};

fn session(interval: u16, expires_in: u32) -> PollEvent {
    PollEvent::Session(Reply::Decoded(CodeResponse {
        device_code: "DEV".to_string(),
        user_code: "ABCD-EFGH".to_string(),
        verification_uri: "https://www.microsoft.com/link".to_string(),
        expires_in,
        interval,
        message: "open the page and enter the code".to_string(),
    }))
}

fn refused(error: &str) -> PollEvent {
    PollEvent::Polled(Reply::Decoded(PollBody::Refused {
        error: error.to_string(),
        description: String::new(),
    }))
}

fn granted() -> PollEvent {
    PollEvent::Polled(Reply::Decoded(PollBody::Granted(AuthenticationResponse {
        expires_in: 3600,
        access_token: "AAD".to_string(),
    })))
}

fn polling(interval: u16, expires_in: u32) -> DevicePoller {
    let (mut poller, _) = DevicePoller::request("client", SCOPE);
    assert!(matches!(poller.step(session(interval, expires_in)), PollAction::Prompt(_, _)));
    poller
}

#[test]
fn device_requests_are_forms() {
    let code = device_code_request("client", SCOPE);
    assert_eq!(code.url, "https://login.microsoftonline.com/consumers/oauth2/v2.0/devicecode");
    assert_eq!(code.body, "client_id=client&scope=XboxLive.signin%20XboxLive.offline_access");
    assert!(code.headers.is_empty());
    let poll = device_token_request("DEV", "client");
    assert_eq!(poll.url, "https://login.microsoftonline.com/consumers/oauth2/v2.0/token");
    assert_eq!(
        poll.body,
        "grant_type=urn:ietf:params:oauth:grant-type:device_code&client_id=client&device_code=DEV"
    );
    assert_eq!(
        poll.headers,
        vec![("Content-Type".to_string(), "application/x-www-form-urlencoded".to_string())]
    );
}

#[test]
fn verdict_reads_the_error_codes() {
    assert_eq!(verdict("authorization_pending"), Verdict::Pending);
    assert_eq!(verdict("slow_down"), Verdict::SlowDown);
    assert_eq!(verdict("expired_token"), Verdict::Expired);
    assert_eq!(verdict("access_denied"), Verdict::Denied);
    assert_eq!(verdict("invalid_grant"), Verdict::Other);
    assert_eq!(verdict(""), Verdict::Other);
}

#[test]
fn session_prompts_and_polls_at_once() {
    let (mut poller, request) = DevicePoller::request("client", SCOPE);
    assert_eq!(request.body, "client_id=client&scope=XboxLive.signin%20XboxLive.offline_access");
    assert_eq!(poller.phase(), PollPhase::Requested);
    assert!(matches!(poller.step(granted()), PollAction::Ignore));
    match poller.step(session(5, 900)) {
        PollAction::Prompt(shown, poll) => {
            assert_eq!(shown.user_code, "ABCD-EFGH");
            assert_eq!(shown.verification_uri, "https://www.microsoft.com/link");
            assert!(poll.body.ends_with("&client_id=client&device_code=DEV"));
        },
        other => panic!("unexpected: {:?}", other),
    }
    assert_eq!(poller.phase(), PollPhase::Polling);
    assert_eq!(poller.interval(), 5);
    assert_eq!(poller.elapsed(), 0);
    assert_eq!(poller.expires_in(), 900);
}

#[test]
fn three_times_pending_then_success_waits_three_times_five_seconds() {
    let mut poller = polling(5, 20);
    let mut waits: Vec<u64> = Vec::new();
    for _ in 0..3 {
        match poller.step(refused("authorization_pending")) {
            PollAction::Wait(seconds, request) => {
                assert!(request.body.ends_with("device_code=DEV"));
                waits.push(seconds);
            },
            other => panic!("unexpected: {:?}", other),
        }
        assert!(poller.elapsed() < 20);
    }
    assert_eq!(waits, vec![5, 5, 5]);
    assert_eq!(poller.elapsed(), 15);
    match poller.step(granted()) {
        PollAction::Succeed(info) => {
            assert_eq!(info.token, "AAD");
            assert_eq!(info.expires_in, 3600);
        },
        other => panic!("unexpected: {:?}", other),
    }
    assert_eq!(poller.phase(), PollPhase::Succeeded);
    assert_eq!(poller.elapsed(), 15);
}

#[test]
fn fourth_pending_would_reach_the_budget_and_expires() {
    let mut poller = polling(5, 20);
    for _ in 0..3 {
        assert!(matches!(poller.step(refused("authorization_pending")), PollAction::Wait(5, _)));
    }
    assert!(matches!(
        poller.step(refused("authorization_pending")),
        PollAction::Fail(AuthErrors::Expired)
    ));
    assert_eq!(poller.phase(), PollPhase::Expired);
    assert_eq!(poller.elapsed(), 15);
    assert!(matches!(poller.step(granted()), PollAction::Ignore));
}

#[test]
fn slow_down_adds_five_seconds_to_the_pace_for_good() {
    let mut poller = polling(5, 900);
    assert!(matches!(poller.step(refused("slow_down")), PollAction::Wait(10, _)));
    assert_eq!(poller.interval(), 10);
    assert!(matches!(poller.step(refused("authorization_pending")), PollAction::Wait(10, _)));
    assert!(matches!(poller.step(refused("slow_down")), PollAction::Wait(15, _)));
    assert_eq!(poller.elapsed(), 35);
    assert_eq!(poller.interval(), 15);
}

#[test]
fn slow_down_that_would_reach_the_budget_expires() {
    let mut poller = polling(5, 10);
    assert!(matches!(poller.step(refused("slow_down")), PollAction::Fail(AuthErrors::Expired)));
    assert_eq!(poller.phase(), PollPhase::Expired);
}

#[test]
fn provider_says_expired_or_denied() {
    let mut poller = polling(5, 900);
    assert!(matches!(poller.step(refused("expired_token")), PollAction::Fail(AuthErrors::Expired)));
    assert_eq!(poller.phase(), PollPhase::Expired);
    let mut poller = polling(5, 900);
    assert!(matches!(poller.step(refused("access_denied")), PollAction::Fail(AuthErrors::Denied)));
    assert_eq!(poller.phase(), PollPhase::Denied);
}

#[test]
fn other_error_fails_with_the_providers_words() {
    let mut poller = polling(5, 900);
    let event = PollEvent::Polled(Reply::Decoded(PollBody::Refused {
        error: "invalid_grant".to_string(),
        description: "AADSTS70000".to_string(),
    }));
    match poller.step(event) {
        PollAction::Fail(AuthErrors::ResponseError(Stage::DeviceToken, words)) => {
            assert_eq!(words, "Failed to parse response: invalid_grant: AADSTS70000")
        },
        other => panic!("unexpected: {:?}", other),
    }
    assert_eq!(poller.phase(), PollPhase::Failed);
}

#[test]
fn transport_failures_fail_the_grant_with_their_stage() {
    let (mut poller, _) = DevicePoller::request("client", SCOPE);
    assert!(matches!(
        poller.step(PollEvent::Session(Reply::Unsent("dns".to_string()))),
        PollAction::Fail(AuthErrors::ResponseError(Stage::DeviceCode, w)) if w == "Failed to send request: dns"
    ));
    assert_eq!(poller.phase(), PollPhase::Failed);
    let mut poller = polling(5, 900);
    assert!(matches!(
        poller.step(PollEvent::Polled(Reply::Unread(String::new()))),
        PollAction::Fail(AuthErrors::ResponseError(Stage::DeviceToken, w)) if w == "Failed to read response text"
    ));
}

#[test]
fn code_that_holds_for_no_time_expires_at_once() {
    let (mut poller, _) = DevicePoller::request("client", SCOPE);
    assert!(matches!(poller.step(session(5, 0)), PollAction::Fail(AuthErrors::Expired)));
    assert_eq!(poller.phase(), PollPhase::Expired);
}

#[test]
fn pace_of_zero_never_counts_time() {
    let mut poller = polling(0, 3);
    for _ in 0..10 {
        assert!(matches!(poller.step(refused("authorization_pending")), PollAction::Wait(0, _)));
    }
    assert_eq!(poller.elapsed(), 0);
    assert!(matches!(poller.step(refused("slow_down")), PollAction::Fail(AuthErrors::Expired)));
}

#[test]
fn longest_pace_and_budget_do_not_overflow() {
    let mut poller = polling(u16::MAX, u32::MAX);
    assert!(matches!(poller.step(refused("slow_down")), PollAction::Wait(65540, _)));
    assert_eq!(poller.elapsed(), 65540);
}
