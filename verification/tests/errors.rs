use minecraft_essentials::errors::{AuthErrors, Stage};

#[test]
fn auth_errors_show_kind_stage_and_words() {
    assert_eq!(
        AuthErrors::AuthenticationFailure("User declined".to_string()).message(),
        "Authentcation Failed: User declined"
    );
    assert_eq!(AuthErrors::MalformedRequest("m".to_string()).message(), "Parsing Failed: m");
    assert_eq!(AuthErrors::BindError("m".to_string()).message(), "Binding error: m");
    assert_eq!(AuthErrors::SocketReadError("m".to_string()).message(), "Socket Read Error: m");
    assert_eq!(
        AuthErrors::AcceptError("m".to_string()).message(),
        "Failed to accept connection: m"
    );
    assert_eq!(
        AuthErrors::ResponseError(Stage::Xsts, "Failed to parse response".to_string()).message(),
        "Response Failed at xsts: Failed to parse response"
    );
    assert_eq!(
        AuthErrors::ResponseError(Stage::DeviceToken, "m".to_string()).message(),
        "Response Failed at device token: m"
    );
    assert_eq!(AuthErrors::MissingCode.message(), "Xbox Expected code.");
    assert_eq!(AuthErrors::InvalidTokenType.message(), "Invalid token type");
    assert_eq!(AuthErrors::Expired.message(), "Device code expired");
    assert_eq!(AuthErrors::Denied.message(), "Device code denied");
}

#[test]
fn stage_names() {
    assert_eq!(Stage::Token.name(), "token");
    assert_eq!(Stage::DeviceCode.name(), "device code");
    assert_eq!(Stage::DeviceToken.name(), "device token");
    assert_eq!(Stage::Xbl.name(), "xbl");
    assert_eq!(Stage::Xsts.name(), "xsts");
    assert_eq!(Stage::Bearer.name(), "bearer");
}

#[test]
fn failures_of_one_connection_are_not_terminal() {
    assert!(!AuthErrors::MalformedRequest(String::new()).is_terminal());
    assert!(!AuthErrors::SocketReadError(String::new()).is_terminal());
    assert!(!AuthErrors::AcceptError(String::new()).is_terminal());
    assert!(AuthErrors::BindError(String::new()).is_terminal());
    assert!(AuthErrors::AuthenticationFailure(String::new()).is_terminal());
    assert!(AuthErrors::ResponseError(Stage::Token, String::new()).is_terminal());
    assert!(AuthErrors::InvalidTokenType.is_terminal());
    assert!(AuthErrors::Expired.is_terminal());
    assert!(AuthErrors::Denied.is_terminal());
    assert!(AuthErrors::MissingCode.is_terminal());
}

#[test]
fn stage_is_found_by_its_name() {
    for stage in [
        Stage::Token,
        Stage::DeviceCode,
        Stage::DeviceToken,
        Stage::Xbl,
        Stage::Xsts,
        Stage::Bearer,
    ] {
        assert_eq!(Stage::named(stage.name()), Some(stage));
    }
    assert_eq!(Stage::named("Token"), None);
    assert_eq!(Stage::named(""), None);
}
