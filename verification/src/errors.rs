//! What can go wrong, by kind, and the text that each failure shows.

use vstd::prelude::*;
use vstd::string::StringExecFns;
use crate::text::{joined, same_text};

verus! {

/// The hop of the flow at which a provider was asked.
#[derive(Debug, Clone, Copy, PartialEq, Eq, Structural)]
pub enum Stage {
    /// Authorization code for an identity token.
    Token,
    /// Request of a device and user code pair.
    DeviceCode,
    /// Device code for an identity token.
    DeviceToken,
    /// Identity token for an Xbox Live user token.
    Xbl,
    /// Xbox Live user token for an XSTS token.
    Xsts,
    /// XSTS token for the platform's bearer token.
    Bearer,
}

impl Stage {
    /// The stage that is shown under `name`; none where no stage is.
    pub fn named(name: &str) -> (stage: Option<Stage>)
        ensures
            stage matches Some(s) ==> s.spec_name() == name@,
            stage is None ==> forall|s: Stage| s.spec_name() != name@,
    {
        if same_text(name, "token") {
            Some(Stage::Token)
        } else if same_text(name, "device code") {
            Some(Stage::DeviceCode)
        } else if same_text(name, "device token") {
            Some(Stage::DeviceToken)
        } else if same_text(name, "xbl") {
            Some(Stage::Xbl)
        } else if same_text(name, "xsts") {
            Some(Stage::Xsts)
        } else if same_text(name, "bearer") {
            Some(Stage::Bearer)
        } else {
            None
        }
    }

    /// The name under which a stage is shown.
    pub open spec fn spec_name(self) -> Seq<char> {
        match self {
            Stage::Token => "token"@,
            Stage::DeviceCode => "device code"@,
            Stage::DeviceToken => "device token"@,
            Stage::Xbl => "xbl"@,
            Stage::Xsts => "xsts"@,
            Stage::Bearer => "bearer"@,
        }
    }

    /// The name under which a stage is shown.
    pub fn name(self) -> (name: &'static str)
        ensures
            name@ == self.spec_name(),
    {
        match self {
            Stage::Token => "token",
            Stage::DeviceCode => "device code",
            Stage::DeviceToken => "device token",
            Stage::Xbl => "xbl",
            Stage::Xsts => "xsts",
            Stage::Bearer => "bearer",
        }
    }
}

/// The errors of authentication.
#[derive(Debug)]
pub enum AuthErrors {
    /// The provider reported an error on the redirect.
    AuthenticationFailure(String),
    /// A request that holds no query, or is not UTF-8.
    MalformedRequest(String),
    /// The loopback port could not be bound.
    BindError(String),
    /// A connection could not be read.
    SocketReadError(String),
    /// A connection could not be accepted.
    AcceptError(String),
    /// A provider could not be reached, or its reply not understood.
    ResponseError(Stage, String),
    /// The redirect carried no authorization code.
    MissingCode,
    /// The platform's token is no bearer token.
    InvalidTokenType,
    /// The device code ran out before the user approved it.
    Expired,
    /// The user declined the device code.
    Denied,
}

/// What an `AuthErrors` value holds.
pub enum AuthErrorsView {
    AuthenticationFailure(Seq<char>),
    MalformedRequest(Seq<char>),
    BindError(Seq<char>),
    SocketReadError(Seq<char>),
    AcceptError(Seq<char>),
    ResponseError(Stage, Seq<char>),
    MissingCode,
    InvalidTokenType,
    Expired,
    Denied,
}

impl View for AuthErrors {
    type V = AuthErrorsView;

    open spec fn view(&self) -> AuthErrorsView {
        match self {
            AuthErrors::AuthenticationFailure(m) => AuthErrorsView::AuthenticationFailure(m@),
            AuthErrors::MalformedRequest(m) => AuthErrorsView::MalformedRequest(m@),
            AuthErrors::BindError(m) => AuthErrorsView::BindError(m@),
            AuthErrors::SocketReadError(m) => AuthErrorsView::SocketReadError(m@),
            AuthErrors::AcceptError(m) => AuthErrorsView::AcceptError(m@),
            AuthErrors::ResponseError(s, m) => AuthErrorsView::ResponseError(*s, m@),
            AuthErrors::MissingCode => AuthErrorsView::MissingCode,
            AuthErrors::InvalidTokenType => AuthErrorsView::InvalidTokenType,
            AuthErrors::Expired => AuthErrorsView::Expired,
            AuthErrors::Denied => AuthErrorsView::Denied,
        }
    }
}

impl AuthErrorsView {
    /// The text that a failure shows: its kind, the stage where there is
    /// one, and the message where there is one.
    pub open spec fn message(self) -> Seq<char> {
        match self {
            AuthErrorsView::AuthenticationFailure(m) => "Authentcation Failed: "@ + m,
            AuthErrorsView::MalformedRequest(m) => "Parsing Failed: "@ + m,
            AuthErrorsView::BindError(m) => "Binding error: "@ + m,
            AuthErrorsView::SocketReadError(m) => "Socket Read Error: "@ + m,
            AuthErrorsView::AcceptError(m) => "Failed to accept connection: "@ + m,
            AuthErrorsView::ResponseError(s, m) => "Response Failed at "@ + s.spec_name() + ": "@
                + m,
            AuthErrorsView::MissingCode => "Xbox Expected code."@,
            AuthErrorsView::InvalidTokenType => "Invalid token type"@,
            AuthErrorsView::Expired => "Device code expired"@,
            AuthErrorsView::Denied => "Device code denied"@,
        }
    }

    /// Whether a failure ends the whole flow. Those of a single connection
    /// do not: the listener goes on.
    pub open spec fn is_terminal(self) -> bool {
        !(self is MalformedRequest || self is SocketReadError || self is AcceptError)
    }
}

impl AuthErrors {
    /// The text that this failure shows.
    pub fn message(&self) -> (text: String)
        ensures
            text@ == self@.message(),
    {
        match self {
            AuthErrors::AuthenticationFailure(m) => joined("Authentcation Failed: ", m.as_str()),
            AuthErrors::MalformedRequest(m) => joined("Parsing Failed: ", m.as_str()),
            AuthErrors::BindError(m) => joined("Binding error: ", m.as_str()),
            AuthErrors::SocketReadError(m) => joined("Socket Read Error: ", m.as_str()),
            AuthErrors::AcceptError(m) => joined("Failed to accept connection: ", m.as_str()),
            AuthErrors::ResponseError(s, m) => {
                let mut text = joined("Response Failed at ", s.name());
                text.append(": ");
                text.append(m.as_str());
                text
            },
            AuthErrors::MissingCode => String::from_str("Xbox Expected code."),
            AuthErrors::InvalidTokenType => String::from_str("Invalid token type"),
            AuthErrors::Expired => String::from_str("Device code expired"),
            AuthErrors::Denied => String::from_str("Device code denied"),
        }
    }

    /// Whether this failure ends the whole flow.
    pub fn is_terminal(&self) -> (terminal: bool)
        ensures
            terminal == self@.is_terminal(),
    {
        match self {
            AuthErrors::MalformedRequest(_) => false,
            AuthErrors::SocketReadError(_) => false,
            AuthErrors::AcceptError(_) => false,
            _ => true,
        }
    }
}

/// The errors of launching.
#[derive(Debug)]
pub enum LaunchErrors {
    /// The device is none that the game runs on.
    UnsupportedDevice(String),
    /// The user's name could not be had.
    UsernameFetchError(String),
    /// The processor is none that the runtime is built for.
    UnsupportedArchitecture(String),
    /// A download could not be reached, or its reply not understood.
    ResponseError(String),
    /// Something that the launch needs is missing.
    Requirements(String),
}

impl LaunchErrors {
    /// The text that a failure shows.
    pub open spec fn spec_message(&self) -> Seq<char> {
        match self {
            LaunchErrors::UnsupportedDevice(m) => "Unsupported Device: "@ + m@,
            LaunchErrors::UsernameFetchError(m) => "Failed to fetch username "@ + m@,
            LaunchErrors::UnsupportedArchitecture(m) => "Unsuported Archtechure: "@ + m@
                + " switch to another cpu archtechure and try again."@,
            LaunchErrors::ResponseError(m) => "Response Failed: "@ + m@,
            LaunchErrors::Requirements(m) => "Requirements not reached: "@ + m@,
        }
    }

    /// The text that this failure shows.
    pub fn message(&self) -> (text: String)
        ensures
            text@ == self.spec_message(),
    {
        match self {
            LaunchErrors::UnsupportedDevice(m) => joined("Unsupported Device: ", m.as_str()),
            LaunchErrors::UsernameFetchError(m) => joined("Failed to fetch username ", m.as_str()),
            LaunchErrors::UnsupportedArchitecture(m) => {
                let mut text = joined("Unsuported Archtechure: ", m.as_str());
                text.append(" switch to another cpu archtechure and try again.");
                text
            },
            LaunchErrors::ResponseError(m) => joined("Response Failed: ", m.as_str()),
            LaunchErrors::Requirements(m) => joined("Requirements not reached: ", m.as_str()),
        }
    }
}

/// The errors of asking a platform for mods.
#[derive(Debug)]
pub enum ModPlatformsErrors {
    /// The request failed.
    RequestError(String),
    /// The reply could not be read as what was asked for.
    DeserializationError(String),
    /// What was to be sent could not be written.
    SerializationError(String),
}

impl ModPlatformsErrors {
    /// The text that a failure shows.
    pub open spec fn spec_message(&self) -> Seq<char> {
        match self {
            ModPlatformsErrors::RequestError(m) => "The request failed: "@ + m@ + "."@,
            ModPlatformsErrors::DeserializationError(m) =>
                "The response could not be deserialized: "@ + m@ + "."@,
            ModPlatformsErrors::SerializationError(m) => "The response could not be serialized: "@
                + m@ + "."@,
        }
    }

    /// The text that this failure shows.
    pub fn message(&self) -> (text: String)
        ensures
            text@ == self.spec_message(),
    {
        let mut text = match self {
            ModPlatformsErrors::RequestError(m) => joined("The request failed: ", m.as_str()),
            ModPlatformsErrors::DeserializationError(m) => joined(
                "The response could not be deserialized: ",
                m.as_str(),
            ),
            ModPlatformsErrors::SerializationError(m) => joined(
                "The response could not be serialized: ",
                m.as_str(),
            ),
        };
        text.append(".");
        text
    }
}

/// What Modrinth refuses a request with.
#[derive(Debug, Clone, Copy, PartialEq, Eq, Structural)]
pub enum ModrinthErrors {
    /// The request came without an access token.
    AuthenticationRequired,
    /// Too many requests came.
    RateLimited,
}

impl ModrinthErrors {
    /// The text that a refusal shows.
    pub open spec fn spec_message(self) -> Seq<char> {
        match self {
            ModrinthErrors::AuthenticationRequired =>
                "The request was not authenticated with a Access Token."@,
            ModrinthErrors::RateLimited => "You are being rate limited."@,
        }
    }

    /// The text that this refusal shows.
    pub fn message(self) -> (text: &'static str)
        ensures
            text@ == self.spec_message(),
    {
        match self {
            ModrinthErrors::AuthenticationRequired =>
                "The request was not authenticated with a Access Token.",
            ModrinthErrors::RateLimited => "You are being rate limited.",
        }
    }
}

} // verus!
