use minecraft_essentials::errors::{AuthErrors, Stage};
use minecraft_essentials::exchange::{
    DisplayClaims, MojangResponse, OuathToken, Reply, XblOutput, Xui, XtsOutput, SCOPE,
};
use minecraft_essentials::pipeline::{Exchange, ExchangeAction, ExchangeEvent};

fn token_reply() -> ExchangeEvent {
    ExchangeEvent::Token(Reply::Decoded(OuathToken {
        token_type: "Bearer".to_string(),
        scope: "s".to_string(),
        expires_in: 3600,
        ext_expires_in: 3600,
        access_token: "AAD".to_string(),
        refresh_token: "R".to_string(),
    }))
}

fn claims(hash: &str) -> DisplayClaims {
    DisplayClaims { xui: vec![Xui { uhs: hash.to_string() }] }
}

fn xbl_reply() -> ExchangeEvent {
    ExchangeEvent::Xbl(Reply::Decoded(XblOutput {
        issue_instant: "i".to_string(),
        not_after: "n".to_string(),
        token: "XBL".to_string(),
        display_claims: claims("uhs1"),
    }))
}

fn xsts_reply() -> ExchangeEvent {
    ExchangeEvent::Xsts(Reply::Decoded(XtsOutput {
        issue_instant: "i".to_string(),
        not_after: "n".to_string(),
        token: "XSTS".to_string(),
        display_claims: claims("uhs1"),
    }))
}

fn bearer_reply(token_type: &str) -> ExchangeEvent {
    ExchangeEvent::Bearer(Reply::Decoded(MojangResponse {
        username: "uuid-1".to_string(),
        access_token: "MC".to_string(),
        token_type: token_type.to_string(),
        expires_in: 86400,
    }))
}

#[test]
fn java_exchange_makes_all_four_hops_in_order() {
    let (mut exchange, first) = Exchange::from_code("CODE", "id", 8000, "secret", SCOPE, false);
    assert!(first.body.contains("code=CODE"));
    assert!(!exchange.targets_bedrock());
    match exchange.step(token_reply()) {
        ExchangeAction::Send(Stage::Xbl, request) => assert!(request.body.contains("\"d=AAD\"")),
        other => panic!("unexpected: {:?}", other),
    }
    match exchange.step(xbl_reply()) {
        ExchangeAction::Send(Stage::Xsts, request) => {
            assert!(request.body.contains("[\"XBL\"]"));
            assert!(request.body.contains("rp://api.minecraftservices.com/"));
        },
        other => panic!("unexpected: {:?}", other),
    }
    match exchange.step(xsts_reply()) {
        ExchangeAction::Send(Stage::Bearer, request) => {
            assert_eq!(request.body, "{\"identityToken\":\"XBL3.0 x=uhs1;XSTS\"}")
        },
        other => panic!("unexpected: {:?}", other),
    }
    assert!(!exchange.is_over());
    match exchange.step(bearer_reply("Bearer")) {
        ExchangeAction::Finish(credential) => {
            assert_eq!(credential.access_token, Some("MC".to_string()));
            assert_eq!(credential.uuid, Some("uuid-1".to_string()));
            assert_eq!(credential.expires_in, 86400);
            assert_eq!(credential.xts_token, None);
        },
        other => panic!("unexpected: {:?}", other),
    }
    assert!(exchange.is_over());
    assert!(matches!(exchange.step(bearer_reply("Bearer")), ExchangeAction::Ignore));
}

#[test]
fn bedrock_exchange_ends_with_the_xsts_token_and_never_asks_the_platform() {
    let (mut exchange, _) = Exchange::from_code("CODE", "id", 8000, "secret", SCOPE, true);
    assert!(exchange.targets_bedrock());
    assert!(matches!(exchange.step(token_reply()), ExchangeAction::Send(Stage::Xbl, _)));
    match exchange.step(xbl_reply()) {
        ExchangeAction::Send(Stage::Xsts, request) => {
            assert!(request.body.contains("https://pocket.realms.minecraft.net/"))
        },
        other => panic!("unexpected: {:?}", other),
    }
    match exchange.step(xsts_reply()) {
        ExchangeAction::Finish(credential) => {
            assert_eq!(credential.xts_token, Some("XSTS".to_string()));
            assert_eq!(credential.access_token, None);
            assert_eq!(credential.uuid, None);
            assert_eq!(credential.expires_in, 0);
        },
        other => panic!("unexpected: {:?}", other),
    }
    assert!(exchange.is_over());
    assert!(matches!(exchange.step(bearer_reply("Bearer")), ExchangeAction::Ignore));
}

#[test]
fn exchange_from_a_token_leaves_the_first_hop_out() {
    let (mut exchange, first) = Exchange::from_token("DEVICE", false);
    assert_eq!(first.url, "https://user.auth.xboxlive.com/user/authenticate");
    assert!(first.body.contains("\"d=DEVICE\""));
    assert!(matches!(exchange.step(token_reply()), ExchangeAction::Ignore));
    assert!(matches!(exchange.step(xbl_reply()), ExchangeAction::Send(Stage::Xsts, _)));
}

#[test]
fn reply_of_another_hop_is_ignored_and_changes_nothing() {
    let (mut exchange, _) = Exchange::from_code("CODE", "id", 8000, "secret", SCOPE, false);
    assert!(matches!(exchange.step(xbl_reply()), ExchangeAction::Ignore));
    assert!(matches!(exchange.step(xsts_reply()), ExchangeAction::Ignore));
    assert!(matches!(exchange.step(bearer_reply("Bearer")), ExchangeAction::Ignore));
    assert!(matches!(exchange.step(token_reply()), ExchangeAction::Send(Stage::Xbl, _)));
}

#[test]
fn failed_hop_ends_the_exchange_with_its_stage() {
    let (mut exchange, _) = Exchange::from_code("CODE", "id", 8000, "wrong", SCOPE, false);
    match exchange.step(ExchangeEvent::Token(Reply::Undecoded(String::new()))) {
        ExchangeAction::Fail(AuthErrors::ResponseError(Stage::Token, words)) => {
            assert_eq!(words, "Failed to send request, Check your Client Secret.")
        },
        other => panic!("unexpected: {:?}", other),
    }
    assert!(exchange.is_over());
    assert!(matches!(exchange.step(token_reply()), ExchangeAction::Ignore));
}

#[test]
fn platform_token_of_another_type_is_refused() {
    let (mut exchange, _) = Exchange::from_token("T", false);
    exchange.step(xbl_reply());
    exchange.step(xsts_reply());
    assert!(matches!(
        exchange.step(bearer_reply("MAC")),
        ExchangeAction::Fail(AuthErrors::InvalidTokenType)
    ));
    assert!(exchange.is_over());
}

#[test]
fn first_user_hash_goes_into_the_identity_token() {
    let (mut exchange, _) = Exchange::from_token("T", false);
    let reply = ExchangeEvent::Xbl(Reply::Decoded(XblOutput {
        issue_instant: "i".to_string(),
        not_after: "n".to_string(),
        token: "XBL".to_string(),
        display_claims: DisplayClaims {
            xui: vec![
                Xui { uhs: "one".to_string() },
                Xui { uhs: "two".to_string() },
                Xui { uhs: "three".to_string() },
            ],
        },
    }));
    exchange.step(reply);
    match exchange.step(xsts_reply()) {
        ExchangeAction::Send(Stage::Bearer, request) => {
            assert_eq!(request.body, "{\"identityToken\":\"XBL3.0 x=one;XSTS\"}")
        },
        other => panic!("unexpected: {:?}", other),
    }
}
