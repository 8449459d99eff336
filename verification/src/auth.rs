//! The caller's side: the choice of a flow, its settings, and the flow
//! itself from its first request to the credential.

use vstd::prelude::*;
use vstd::string::StringExecFns;
use crate::capture::{
    bind_address, capture_step, classified, filled, loopback_address, CaptureAction,
    CaptureActionView, CaptureEvent, CaptureEventView, CaptureServer, CaptureView, Phase,
};
use crate::device::{
    device_code_request_of, poll_step, requested, CodeResponse, DeviceCodeSession, DevicePoller,
    PollAction, PollActionView, PollEvent, PollEventView, PollerView,
};
use crate::errors::{AuthErrors, AuthErrorsView, Stage};
use crate::exchange::{
    token_request_of, xbl_request_of, CustomAuthData, HttpRequest, HttpRequestView,
    MinecraftAuthResult, Reply, ReplyView, SCOPE,
};
use crate::pipeline::{
    exchange_step, lemma_one_token, lemma_step_forward, stage_rank, Exchange, ExchangeAction,
    ExchangeActionView, ExchangeEvent, ExchangeEventView, ExchangeView,
};
use crate::query::parsed;
use crate::text::{decimal, joined, push_decimal};

verus! {

/// The port of the loopback listener where none is chosen.
pub const DEFAULT_PORT: u16 = 8000;

/// The way in which the user is authenticated.
#[derive(Debug, Clone, Copy, PartialEq, Eq, Structural)]
pub enum AuthType {
    /// The authorization code grant, through the system's browser.
    Oauth,
    /// The device code grant, for a device without a browser.
    DeviceCode,
}

/// A value that may be left out: itself, or an `Option` of it.
pub trait Optional<T>: Sized {
    /// The value, where there is one.
    spec fn spec_value(self) -> Option<T>;

    /// The value, where there is one.
    fn value(self) -> (v: Option<T>)
        ensures
            v == self.spec_value(),
    ;
}

impl Optional<u16> for u16 {
    open spec fn spec_value(self) -> Option<u16> {
        Some(self)
    }

    fn value(self) -> (v: Option<u16>) {
        Some(self)
    }
}

impl Optional<u16> for Option<u16> {
    open spec fn spec_value(self) -> Option<u16> {
        self
    }

    fn value(self) -> (v: Option<u16>) {
        self
    }
}

impl Optional<bool> for bool {
    open spec fn spec_value(self) -> Option<bool> {
        Some(self)
    }

    fn value(self) -> (v: Option<bool>) {
        Some(self)
    }
}

impl Optional<bool> for Option<bool> {
    open spec fn spec_value(self) -> Option<bool> {
        self
    }

    fn value(self) -> (v: Option<bool>) {
        self
    }
}

/// The settings of a flow, set one by one.
#[derive(Debug)]
pub struct AuthenticationBuilder {
    auth_type: AuthType,
    client_id: String,
    port: u16,
    client_secrect: String,
    bedrockrel: bool,
    scope: String,
}

/// The settings of a flow as plain values.
pub struct Settings {
    pub auth_type: AuthType,
    pub client_id: Seq<char>,
    pub port: u16,
    pub client_secret: Seq<char>,
    pub bedrockrel: bool,
    pub scope: Seq<char>,
}

impl View for AuthenticationBuilder {
    type V = Settings;

    closed spec fn view(&self) -> Settings {
        Settings {
            auth_type: self.auth_type,
            client_id: self.client_id@,
            port: self.port,
            client_secret: self.client_secrect@,
            bedrockrel: self.bedrockrel,
            scope: self.scope@,
        }
    }
}

impl AuthenticationBuilder {
    /// Settings for the authorization code grant on port 8000, for the Java
    /// edition, with no client named yet.
    pub fn builder() -> (b: AuthenticationBuilder)
        ensures
            b@ == (Settings {
                auth_type: AuthType::Oauth,
                client_id: Seq::empty(),
                port: DEFAULT_PORT,
                client_secret: Seq::empty(),
                bedrockrel: false,
                scope: SCOPE@,
            }),
    {
        AuthenticationBuilder {
            auth_type: AuthType::Oauth,
            client_id: String::new(),
            port: DEFAULT_PORT,
            client_secrect: String::new(),
            bedrockrel: false,
            scope: String::from_str(SCOPE),
        }
    }

    /// Sets the way in which the user is authenticated.
    pub fn of_type(&mut self, auth_type: AuthType) -> (b: &mut AuthenticationBuilder)
        ensures
            b@ == (Settings { auth_type, ..old(self)@ }),
            final(self)@ == final(b)@,
    {
        self.auth_type = auth_type;
        self
    }

    /// Sets the port of the loopback listener; 8000 where none is given.
    pub fn port<T: Optional<u16>>(&mut self, port: T) -> (b: &mut AuthenticationBuilder)
        ensures
            b@ == (Settings {
                port: match port.spec_value() {
                    Some(p) => p,
                    None => DEFAULT_PORT,
                },
                ..old(self)@
            }),
            final(self)@ == final(b)@,
    {
        let port = match port.value() {
            Some(port) => port,
            None => DEFAULT_PORT,
        };
        self.port = port;
        self
    }

    /// Sets the client id of the application.
    pub fn client_id(&mut self, client_id: &str) -> (b: &mut AuthenticationBuilder)
        ensures
            b@ == (Settings { client_id: client_id@, ..old(self)@ }),
            final(self)@ == final(b)@,
    {
        self.client_id = String::from_str(client_id);
        self
    }

    /// Sets the client secret of the application.
    pub fn client_secret(&mut self, client_secret: &str) -> (b: &mut AuthenticationBuilder)
        ensures
            b@ == (Settings { client_secret: client_secret@, ..old(self)@ }),
            final(self)@ == final(b)@,
    {
        self.client_secrect = String::from_str(client_secret);
        self
    }

    /// Sets whether the Bedrock realms service is the target, which needs
    /// the XSTS token and no bearer token; the Java edition where nothing
    /// is given.
    pub fn bedrockrel<T: Optional<bool>>(&mut self, bedrock_rel: T) -> (b:
        &mut AuthenticationBuilder)
        ensures
            b@ == (Settings {
                bedrockrel: match bedrock_rel.spec_value() {
                    Some(flag) => flag,
                    None => false,
                },
                ..old(self)@
            }),
            final(self)@ == final(b)@,
    {
        let bedrock_rel = match bedrock_rel.value() {
            Some(flag) => flag,
            None => false,
        };
        self.bedrockrel = bedrock_rel;
        self
    }

    /// Sets the scope that is asked of the identity provider.
    pub fn scope(&mut self, scope: &str) -> (b: &mut AuthenticationBuilder)
        ensures
            b@ == (Settings { scope: scope@, ..old(self)@ }),
            final(self)@ == final(b)@,
    {
        self.scope = String::from_str(scope);
        self
    }

    /// The same settings once more.
    pub fn copy(&self) -> (c: AuthenticationBuilder)
        ensures
            c@ == self@,
    {
        AuthenticationBuilder {
            auth_type: self.auth_type,
            client_id: self.client_id.clone(),
            port: self.port,
            client_secrect: self.client_secrect.clone(),
            bedrockrel: self.bedrockrel,
            scope: self.scope.clone(),
        }
    }

    /// The address at which the user approves the application.
    pub fn oauth_url(&self) -> (url: String)
        ensures
            url@ == authorize_url(self@.client_id, self@.port, self@.scope),
    {
        let mut url = joined(
            "https://login.microsoftonline.com/consumers/oauth2/v2.0/authorize/?client_id=",
            self.client_id.as_str(),
        );
        url.append("&response_type=code&redirect_uri=http://localhost:");
        push_decimal(&mut url, self.port as u64);
        url.append("&response_mode=query&scope=");
        url.append(self.scope.as_str());
        url.append("&state=12345");
        url
    }

    /// What the user needs before the flow runs: for the authorization code
    /// grant the address to open, for the device code grant the code that
    /// the provider gave, which the caller has asked for with
    /// `device_code_request` and hands in here.
    pub fn get_info(&self, session: Option<CodeResponse>) -> (info: AuthInfo)
        ensures
            info@ == info_of(self@, session_view(session)),
    {
        if self.auth_type == AuthType::DeviceCode {
            AuthInfo { device_code: session, ouath_url: None }
        } else {
            AuthInfo { device_code: None, ouath_url: Some(self.oauth_url()) }
        }
    }
}

/// The address at which the user approves the application.
pub open spec fn authorize_url(client_id: Seq<char>, port: u16, scope: Seq<char>) -> Seq<char> {
    "https://login.microsoftonline.com/consumers/oauth2/v2.0/authorize/?client_id="@ + client_id
        + "&response_type=code&redirect_uri=http://localhost:"@ + decimal(port as nat)
        + "&response_mode=query&scope="@ + scope + "&state=12345"@
}

/// What the user needs before a flow runs.
#[derive(Debug)]
pub struct AuthInfo {
    /// The device code and what goes with it, for the device code grant.
    pub device_code: Option<CodeResponse>,
    /// The address to open, for the authorization code grant.
    pub ouath_url: Option<String>,
}

/// An `AuthInfo` as plain values.
pub struct AuthInfoView {
    pub device_code: Option<DeviceCodeSession>,
    pub ouath_url: Option<Seq<char>>,
}

/// A device code that may be missing, as plain values.
pub open spec fn session_view(session: Option<CodeResponse>) -> Option<DeviceCodeSession> {
    match session {
        Some(s) => Some(s@),
        None => None,
    }
}

impl View for AuthInfo {
    type V = AuthInfoView;

    open spec fn view(&self) -> AuthInfoView {
        AuthInfoView {
            device_code: session_view(self.device_code),
            ouath_url: self.ouath_url.deep_view(),
        }
    }
}

/// What the user needs before a flow with these settings runs.
pub open spec fn info_of(settings: Settings, session: Option<DeviceCodeSession>) -> AuthInfoView {
    if settings.auth_type == AuthType::DeviceCode {
        AuthInfoView { device_code: session, ouath_url: None }
    } else {
        AuthInfoView {
            device_code: None,
            ouath_url: Some(authorize_url(settings.client_id, settings.port, settings.scope)),
        }
    }
}

/// The authorization code grant for one application, named by its client
/// id and port alone; `AuthenticationBuilder` offers the same and more.
#[derive(Debug)]
pub struct Oauth {
    port: u16,
    client_id: String,
}

impl Oauth {
    /// The client id that the grant runs for.
    pub closed spec fn spec_client_id(&self) -> Seq<char> {
        self.client_id@
    }

    /// The port of the loopback listener.
    pub closed spec fn spec_port(&self) -> u16 {
        self.port
    }

    /// The grant for `client_id`, with the loopback listener at `port`, or
    /// at 8000 where none is given.
    pub fn new(client_id: &str, port: Option<u16>) -> (oauth: Oauth)
        ensures
            oauth.spec_client_id() == client_id@,
            oauth.spec_port() == (match port {
                Some(p) => p,
                None => DEFAULT_PORT,
            }),
    {
        let port = match port {
            Some(p) => p,
            None => DEFAULT_PORT,
        };
        Oauth { client_id: String::from_str(client_id), port }
    }

    /// The settings that this grant stands for.
    pub fn settings(&self, bedrock_relm: bool, client_secret: &str) -> (b: AuthenticationBuilder)
        ensures
            b@ == (Settings {
                auth_type: AuthType::Oauth,
                client_id: self.spec_client_id(),
                port: self.spec_port(),
                client_secret: client_secret@,
                bedrockrel: bedrock_relm,
                scope: SCOPE@,
            }),
    {
        let mut b = AuthenticationBuilder::builder();
        b.bedrockrel(bedrock_relm).of_type(AuthType::Oauth).client_secret(client_secret).client_id(
            self.client_id.as_str(),
        ).port(self.port);
        b
    }

    /// The address at which the user approves the application.
    pub fn url(&self) -> (url: String)
        ensures
            url@ == authorize_url(self.spec_client_id(), self.spec_port(), SCOPE@),
    {
        let mut b = AuthenticationBuilder::builder();
        b.port(self.port).client_id(self.client_id.as_str()).of_type(AuthType::Oauth);
        b.oauth_url()
    }
}

/// The device code grant for one application: the code that the provider
/// gave, and for whom.
#[derive(Debug)]
pub struct DeviceCode {
    url: String,
    message: String,
    expires_in: u32,
    interval: u16,
    user_code: String,
    device_code: String,
    client_id: String,
}

impl DeviceCode {
    /// The provider's answer that this grant holds.
    pub closed spec fn spec_session(&self) -> DeviceCodeSession {
        DeviceCodeSession {
            device_code: self.device_code@,
            user_code: self.user_code@,
            verification_uri: self.url@,
            expires_in: self.expires_in,
            interval: self.interval,
            message: self.message@,
        }
    }

    /// The client id that the grant runs for.
    pub closed spec fn spec_client_id(&self) -> Seq<char> {
        self.client_id@
    }

    /// The grant for `client_id` with the code that the provider gave.
    pub fn with_response(client_id: &str, response: CodeResponse) -> (grant: DeviceCode)
        ensures
            grant.spec_session() == response@,
            grant.spec_client_id() == client_id@,
    {
        DeviceCode {
            url: response.verification_uri,
            message: response.message,
            expires_in: response.expires_in,
            interval: response.interval,
            user_code: response.user_code,
            device_code: response.device_code,
            client_id: String::from_str(client_id),
        }
    }

    /// What the user is shown: the address to open, the provider's message,
    /// the seconds for which the code holds, and the code to enter.
    pub fn preinfo(&self) -> (info: (&str, &str, u32, &str))
        ensures
            info.0@ == self.spec_session().verification_uri,
            info.1@ == self.spec_session().message,
            info.2 == self.spec_session().expires_in,
            info.3@ == self.spec_session().user_code,
    {
        (self.url.as_str(), self.message.as_str(), self.expires_in, self.user_code.as_str())
    }

    /// The provider's answer that this grant holds.
    pub fn session(&self) -> (session: CodeResponse)
        ensures
            session@ == self.spec_session(),
    {
        CodeResponse {
            device_code: self.device_code.clone(),
            user_code: self.user_code.clone(),
            verification_uri: self.url.clone(),
            expires_in: self.expires_in,
            interval: self.interval,
            message: self.message.clone(),
        }
    }

    /// The device code that is polled for.
    pub fn device_code(&self) -> (code: &str)
        ensures
            code@ == self.spec_session().device_code,
    {
        self.device_code.as_str()
    }

    /// The client id that the grant runs for.
    pub fn client_id(&self) -> (id: &str)
        ensures
            id@ == self.spec_client_id(),
    {
        self.client_id.as_str()
    }
}

/// A flow from its first request to the credential: the listener and the
/// settings while the redirect is waited for, the poller while the device
/// code is polled for, then the exchange.
#[derive(Debug)]
pub enum AuthFlow {
    /// The browser's redirect is waited for.
    Capturing { server: CaptureServer, settings: AuthenticationBuilder },
    /// The device code grant runs.
    Granting { poller: DevicePoller, bedrock: bool },
    /// The tokens are exchanged.
    Exchanging(Exchange),
    /// The credential was handed out.
    Done,
    /// The flow failed.
    Failed,
}

/// An `AuthFlow` as plain values.
pub enum FlowView {
    Capturing { server: CaptureView, settings: Settings },
    Granting { poller: PollerView, bedrock: bool },
    Exchanging(ExchangeView),
    Done,
    Failed,
}

impl View for AuthFlow {
    type V = FlowView;

    open spec fn view(&self) -> FlowView {
        match self {
            AuthFlow::Capturing { server, settings } => FlowView::Capturing {
                server: server@,
                settings: settings@,
            },
            AuthFlow::Granting { poller, bedrock } => FlowView::Granting {
                poller: poller@,
                bedrock: *bedrock,
            },
            AuthFlow::Exchanging(exchange) => FlowView::Exchanging(exchange@),
            AuthFlow::Done => FlowView::Done,
            AuthFlow::Failed => FlowView::Failed,
        }
    }
}

impl FlowView {
    /// Whether the flow is for the Bedrock realms service.
    pub open spec fn targets_bedrock(self) -> bool {
        match self {
            FlowView::Capturing { settings, .. } => settings.bedrockrel,
            FlowView::Granting { bedrock, .. } => bedrock,
            FlowView::Exchanging(exchange) => exchange.targets_bedrock(),
            _ => false,
        }
    }

    /// Whether the flow is over, well or not.
    pub open spec fn is_over(self) -> bool {
        self is Done || self is Failed
    }
}

/// What came back from outside, by the part of the flow that it is for.
#[derive(Debug)]
pub enum FlowEvent {
    Capture(CaptureEvent),
    Poll(PollEvent),
    Exchange(ExchangeEvent),
}

/// A `FlowEvent` as plain values.
pub enum FlowEventView {
    Capture(CaptureEventView),
    Poll(PollEventView),
    Exchange(ExchangeEventView),
}

impl View for FlowEvent {
    type V = FlowEventView;

    open spec fn view(&self) -> FlowEventView {
        match self {
            FlowEvent::Capture(e) => FlowEventView::Capture(e@),
            FlowEvent::Poll(e) => FlowEventView::Poll(e@),
            FlowEvent::Exchange(e) => FlowEventView::Exchange(e@),
        }
    }
}

/// What is to be done next.
#[derive(Debug)]
pub enum FlowAction {
    /// Bind the listener to this address and say how it went.
    Bind(String),
    /// Go on accepting connections.
    Listen,
    /// Log a failure of one connection and go on accepting.
    Report(AuthErrors),
    /// Show the code to the user and send the first poll.
    Prompt(CodeResponse, HttpRequest),
    /// Wait this many seconds, then send the poll.
    Wait(u64, HttpRequest),
    /// Cancel the listener, if there is one, send the request of this stage
    /// and come back with its reply.
    Send(Stage, HttpRequest),
    /// The flow is over: this is the credential.
    Finish(CustomAuthData),
    /// The flow is over: it failed, and the listener is to be cancelled.
    Fail(AuthErrors),
    /// Nothing is to be done about this event.
    Ignore,
}

/// A `FlowAction` as plain values.
pub enum FlowActionView {
    Bind(Seq<char>),
    Listen,
    Report(AuthErrorsView),
    Prompt(DeviceCodeSession, HttpRequestView),
    Wait(nat, HttpRequestView),
    Send(Stage, HttpRequestView),
    Finish(MinecraftAuthResult),
    Fail(AuthErrorsView),
    Ignore,
}

impl View for FlowAction {
    type V = FlowActionView;

    open spec fn view(&self) -> FlowActionView {
        match self {
            FlowAction::Bind(address) => FlowActionView::Bind(address@),
            FlowAction::Listen => FlowActionView::Listen,
            FlowAction::Report(e) => FlowActionView::Report(e@),
            FlowAction::Prompt(session, request) => FlowActionView::Prompt(session@, request@),
            FlowAction::Wait(seconds, request) => FlowActionView::Wait(*seconds as nat, request@),
            FlowAction::Send(stage, request) => FlowActionView::Send(*stage, request@),
            FlowAction::Finish(c) => FlowActionView::Finish(c@),
            FlowAction::Fail(e) => FlowActionView::Fail(e@),
            FlowAction::Ignore => FlowActionView::Ignore,
        }
    }
}

/// How a flow with these settings begins: the authorization code grant by
/// binding the listener, the device code grant by asking for a code.
pub open spec fn flow_start(settings: Settings) -> (FlowView, FlowActionView) {
    match settings.auth_type {
        AuthType::Oauth => (
            FlowView::Capturing {
                server: CaptureView { phase: Phase::Binding, slot: None },
                settings,
            },
            FlowActionView::Bind(loopback_address(settings.port)),
        ),
        AuthType::DeviceCode => (
            FlowView::Granting {
                poller: requested(settings.client_id),
                bedrock: settings.bedrockrel,
            },
            FlowActionView::Send(
                Stage::DeviceCode,
                device_code_request_of(settings.client_id, settings.scope),
            ),
        ),
    }
}

/// What follows a captured redirect: the failure that the provider
/// reported, `MissingCode` where no code came, else the exchange, opened
/// with the code and with the port that the listener had.
pub open spec fn after_capture(settings: Settings, info: crate::query::AuthorizationResult) -> (
    FlowView,
    FlowActionView,
) {
    match classified(info) {
        Ok(kept) => match kept.code {
            Some(code) => (
                FlowView::Exchanging(ExchangeView::Token { bedrock: settings.bedrockrel }),
                FlowActionView::Send(
                    Stage::Token,
                    token_request_of(
                        code,
                        settings.client_id,
                        settings.port,
                        settings.client_secret,
                        settings.scope,
                    ),
                ),
            ),
            None => (FlowView::Failed, FlowActionView::Fail(AuthErrorsView::MissingCode)),
        },
        Err(err) => (FlowView::Failed, FlowActionView::Fail(err)),
    }
}

/// The flow's next state and what is to be done, for an event. An event
/// counts only in the part of the flow that it is for.
pub open spec fn flow_step(s: FlowView, e: FlowEventView) -> (FlowView, FlowActionView) {
    match (s, e) {
        (FlowView::Capturing { server, settings }, FlowEventView::Capture(event)) => {
            let (next, action) = capture_step(server, event);
            match action {
                CaptureActionView::Wake => after_capture(settings, next.slot->0),
                CaptureActionView::Fail(err) => (FlowView::Failed, FlowActionView::Fail(err)),
                CaptureActionView::Report(err) => (
                    FlowView::Capturing { server: next, settings },
                    FlowActionView::Report(err),
                ),
                CaptureActionView::Listen => (
                    FlowView::Capturing { server: next, settings },
                    FlowActionView::Listen,
                ),
                _ => (FlowView::Capturing { server: next, settings }, FlowActionView::Ignore),
            }
        },
        (FlowView::Granting { poller, bedrock }, FlowEventView::Poll(event)) => {
            let (next, action) = poll_step(poller, event);
            match action {
                PollActionView::Prompt(session, request) => (
                    FlowView::Granting { poller: next, bedrock },
                    FlowActionView::Prompt(session, request),
                ),
                PollActionView::Wait(seconds, request) => (
                    FlowView::Granting { poller: next, bedrock },
                    FlowActionView::Wait(seconds, request),
                ),
                PollActionView::Succeed(token) => (
                    FlowView::Exchanging(ExchangeView::Xbl { bedrock }),
                    FlowActionView::Send(Stage::Xbl, xbl_request_of(token.token)),
                ),
                PollActionView::Fail(err) => (FlowView::Failed, FlowActionView::Fail(err)),
                PollActionView::Ignore => (
                    FlowView::Granting { poller: next, bedrock },
                    FlowActionView::Ignore,
                ),
            }
        },
        (FlowView::Exchanging(exchange), FlowEventView::Exchange(event)) => {
            let (next, action) = exchange_step(exchange, event);
            match action {
                ExchangeActionView::Send(stage, request) => (
                    FlowView::Exchanging(next),
                    FlowActionView::Send(stage, request),
                ),
                ExchangeActionView::Finish(credential) => (
                    FlowView::Done,
                    FlowActionView::Finish(credential),
                ),
                ExchangeActionView::Fail(err) => (FlowView::Failed, FlowActionView::Fail(err)),
                ExchangeActionView::Ignore => (FlowView::Exchanging(next), FlowActionView::Ignore),
            }
        },
        _ => (s, FlowActionView::Ignore),
    }
}

/// The flow's state after a run of events.
pub open spec fn flow_run(s: FlowView, events: Seq<FlowEventView>) -> FlowView
    decreases events.len(),
{
    if events.len() == 0 {
        s
    } else {
        flow_step(flow_run(s, events.drop_last()), events.last()).0
    }
}

/// What is done on the event of index `i` of a run.
pub open spec fn flow_action_at(s: FlowView, events: Seq<FlowEventView>, i: int)
    -> FlowActionView {
    flow_step(flow_run(s, events.take(i)), events[i]).1
}

/// A flow begins with the target that its settings name, and the listener
/// is bound at the port that the exchange will name in its redirect
/// address.
pub proof fn lemma_flow_start(settings: Settings)
    ensures
        flow_start(settings).0.targets_bedrock() == settings.bedrockrel,
        settings.auth_type == AuthType::Oauth ==> flow_start(settings).1 == FlowActionView::Bind(
            loopback_address(settings.port),
        ),
        !flow_start(settings).0.is_over(),
{
}

/// A redirect on which the provider reports an error and describes it
/// parses well and then ends the flow with `AuthenticationFailure` and the
/// provider's words.
pub proof fn lemma_provider_error_ends_flow(settings: Settings, request: Seq<u8>)
    requires
        parsed(request) is Ok,
        filled(parsed(request)->Ok_0.error),
        filled(parsed(request)->Ok_0.error_description),
    ensures
        flow_step(
            FlowView::Capturing {
                server: CaptureView { phase: Phase::Listening, slot: None },
                settings,
            },
            FlowEventView::Capture(CaptureEventView::Received(request)),
        ) == (
            FlowView::Failed,
            FlowActionView::Fail(
                AuthErrorsView::AuthenticationFailure(
                    parsed(request)->Ok_0.error_description->0,
                ),
            ),
        ),
{
}

/// A redirect without a reported error opens the exchange with its code,
/// and ends the flow with `MissingCode` where it brought none.
pub proof fn lemma_redirect_opens_exchange(settings: Settings, request: Seq<u8>)
    requires
        parsed(request) is Ok,
        !(filled(parsed(request)->Ok_0.error) && filled(parsed(request)->Ok_0.error_description)),
    ensures
        ({
            let step = flow_step(
                FlowView::Capturing {
                    server: CaptureView { phase: Phase::Listening, slot: None },
                    settings,
                },
                FlowEventView::Capture(CaptureEventView::Received(request)),
            );
            match parsed(request)->Ok_0.code {
                Some(code) => step == (
                    FlowView::Exchanging(ExchangeView::Token { bedrock: settings.bedrockrel }),
                    FlowActionView::Send(
                        Stage::Token,
                        token_request_of(
                            code,
                            settings.client_id,
                            settings.port,
                            settings.client_secret,
                            settings.scope,
                        ),
                    ),
                ),
                None => step == (
                    FlowView::Failed,
                    FlowActionView::Fail(AuthErrorsView::MissingCode),
                ),
            }
        }),
{
}

/// One event leaves the target of a flow as it is, until the flow is over;
/// a flow that is over does nothing more. For the Bedrock realms service no
/// request to the platform goes out and a credential holds the XSTS token
/// alone; for the Java edition a credential holds the bearer token alone.
pub proof fn lemma_flow_step(s: FlowView, e: FlowEventView)
    ensures
        flow_step(s, e).0.is_over() || flow_step(s, e).0.targets_bedrock() == s.targets_bedrock(),
        s.is_over() ==> flow_step(s, e) == (s, FlowActionView::Ignore),
        flow_step(s, e).1 is Finish ==> flow_step(s, e).0 is Done,
        flow_step(s, e).1 is Fail ==> flow_step(s, e).0 is Failed,
        s.targets_bedrock() ==> !(flow_step(s, e).1 matches FlowActionView::Send(stage, _)
            && stage == Stage::Bearer),
        flow_step(s, e).1 matches FlowActionView::Finish(c) ==> {
            &&& c.xts_token is Some <==> s.targets_bedrock()
            &&& c.access_token is Some <==> !s.targets_bedrock()
        },
{
    match (s, e) {
        (FlowView::Exchanging(exchange), FlowEventView::Exchange(event)) => {
            lemma_one_token(exchange, event);
            lemma_step_forward(exchange, event);
        },
        _ => {},
    }
}

impl FlowView {
    /// How far the flow has come: 0 before the exchange, then the number
    /// of the hop that is waited for, and 5 once the flow is over.
    pub open spec fn rank(self) -> nat {
        match self {
            FlowView::Capturing { .. } => 0,
            FlowView::Granting { .. } => 0,
            FlowView::Exchanging(exchange) => exchange.rank(),
            FlowView::Done => 5,
            FlowView::Failed => 5,
        }
    }
}

/// A flow never goes back, and a request of the exchange goes out exactly
/// when its hop is entered.
pub proof fn lemma_flow_forward(s: FlowView, e: FlowEventView)
    ensures
        flow_step(s, e).0.rank() >= s.rank(),
        flow_step(s, e).1 is Send && stage_rank(flow_step(s, e).1->Send_0) > 0 ==> flow_step(
            s,
            e,
        ).0.rank() == stage_rank(flow_step(s, e).1->Send_0) && s.rank() < stage_rank(
            flow_step(s, e).1->Send_0,
        ),
{
    match (s, e) {
        (FlowView::Exchanging(exchange), FlowEventView::Exchange(event)) => {
            lemma_step_forward(exchange, event);
        },
        _ => {},
    }
}

/// Over a longer run a flow has come at least as far as over a shorter
/// one.
pub proof fn lemma_flow_run_forward(s: FlowView, events: Seq<FlowEventView>, i: int, j: int)
    requires
        0 <= i <= j <= events.len(),
    ensures
        flow_run(s, events.take(i)).rank() <= flow_run(s, events.take(j)).rank(),
    decreases j - i,
{
    if i < j {
        lemma_flow_run_forward(s, events, i, j - 1);
        assert(events.take(j).drop_last() =~= events.take(j - 1));
        lemma_flow_forward(flow_run(s, events.take(j - 1)), events[j - 1]);
    }
}

/// In every run of a flow the requests of the four hops go out in their
/// order and each at most once: of two such requests the later one is that
/// of a later hop. So a captured code opens the exchange once, however
/// many redirects arrive.
pub proof fn lemma_flow_hops_in_order(s: FlowView, events: Seq<FlowEventView>, i: int, j: int)
    requires
        0 <= i < j < events.len(),
        flow_action_at(s, events, i) is Send,
        flow_action_at(s, events, j) is Send,
        stage_rank(flow_action_at(s, events, i)->Send_0) > 0,
        stage_rank(flow_action_at(s, events, j)->Send_0) > 0,
    ensures
        stage_rank(flow_action_at(s, events, i)->Send_0) < stage_rank(
            flow_action_at(s, events, j)->Send_0,
        ),
{
    lemma_flow_forward(flow_run(s, events.take(i)), events[i]);
    lemma_flow_forward(flow_run(s, events.take(j)), events[j]);
    assert(events.take(i + 1).drop_last() =~= events.take(i));
    lemma_flow_run_forward(s, events, i + 1, j);
}

/// Over every run a flow keeps its target until it is over.
pub proof fn lemma_flow_keeps_target(s: FlowView, events: Seq<FlowEventView>)
    ensures
        flow_run(s, events).is_over() || flow_run(s, events).targets_bedrock()
            == s.targets_bedrock(),
    decreases events.len(),
{
    if events.len() > 0 {
        lemma_flow_keeps_target(s, events.drop_last());
        lemma_flow_step(flow_run(s, events.drop_last()), events.last());
    }
}

/// Whatever comes back from outside, a flow for the Bedrock realms service
/// never sends the request of the fourth hop, and where it ends well its
/// credential holds the XSTS token and no bearer token; a flow for the Java
/// edition ends with the bearer token and no XSTS token.
pub proof fn lemma_flow_credential(s: FlowView, events: Seq<FlowEventView>, i: int)
    requires
        0 <= i < events.len(),
    ensures
        s.targets_bedrock() ==> !(flow_action_at(s, events, i) matches FlowActionView::Send(
            stage,
            _,
        ) && stage == Stage::Bearer),
        flow_action_at(s, events, i) matches FlowActionView::Finish(c) ==> {
            &&& c.xts_token is Some <==> s.targets_bedrock()
            &&& c.access_token is Some <==> !s.targets_bedrock()
        },
{
    lemma_flow_keeps_target(s, events.take(i));
    lemma_flow_step(flow_run(s, events.take(i)), events[i]);
}

impl AuthenticationBuilder {
    /// Begins the flow that these settings describe.
    pub fn flow(&self) -> (begun: (AuthFlow, FlowAction))
        ensures
            (begun.0@, begun.1@) == flow_start(self@),
    {
        match self.auth_type {
            AuthType::Oauth => (
                AuthFlow::Capturing { server: CaptureServer::new(), settings: self.copy() },
                FlowAction::Bind(bind_address(self.port)),
            ),
            AuthType::DeviceCode => {
                let (poller, request) = DevicePoller::request(
                    self.client_id.as_str(),
                    self.scope.as_str(),
                );
                (
                    AuthFlow::Granting { poller, bedrock: self.bedrockrel },
                    FlowAction::Send(Stage::DeviceCode, request),
                )
            },
        }
    }
}

/// How a flow begins for a device code that the provider has given
/// already: as a flow of the device code grant goes on when that answer
/// comes.
pub open spec fn flow_resume(session: DeviceCodeSession, client_id: Seq<char>, bedrock: bool) -> (
    FlowView,
    FlowActionView,
) {
    flow_step(
        FlowView::Granting { poller: requested(client_id), bedrock },
        FlowEventView::Poll(PollEventView::Session(ReplyView::Decoded(session))),
    )
}

impl AuthFlow {
    /// Begins the device code grant with a code that the provider has given
    /// already.
    pub fn with_session(session: CodeResponse, client_id: &str, bedrock: bool) -> (begun: (
        AuthFlow,
        FlowAction,
    ))
        ensures
            (begun.0@, begun.1@) == flow_resume(session@, client_id@, bedrock),
    {
        let mut flow = AuthFlow::Granting { poller: DevicePoller::new(client_id), bedrock };
        let action = flow.step(FlowEvent::Poll(PollEvent::Session(Reply::Decoded(session))));
        (flow, action)
    }

    /// Whether the flow is over, well or not.
    pub fn is_over(&self) -> (over: bool)
        ensures
            over == self@.is_over(),
    {
        match self {
            AuthFlow::Done => true,
            AuthFlow::Failed => true,
            _ => false,
        }
    }

    /// Takes an event, moves on and says what is to be done.
    pub fn step(&mut self, event: FlowEvent) -> (action: FlowAction)
        ensures
            (final(self)@, action@) == flow_step(old(self)@, event@),
    {
        let mut state = AuthFlow::Failed;
        core::mem::swap(self, &mut state);
        match (state, event) {
            (AuthFlow::Capturing { server, settings }, FlowEvent::Capture(event)) => {
                let mut server = server;
                match server.step(event) {
                    CaptureAction::Wake => {
                        match server.step(CaptureEvent::Awaited) {
                            CaptureAction::Finish(Ok(info)) => match info.code {
                                Some(code) => {
                                    let (exchange, request) = Exchange::from_code(
                                        code.as_str(),
                                        settings.client_id.as_str(),
                                        settings.port,
                                        settings.client_secrect.as_str(),
                                        settings.scope.as_str(),
                                        settings.bedrockrel,
                                    );
                                    *self = AuthFlow::Exchanging(exchange);
                                    FlowAction::Send(Stage::Token, request)
                                },
                                None => FlowAction::Fail(AuthErrors::MissingCode),
                            },
                            CaptureAction::Finish(Err(err)) => FlowAction::Fail(err),
                            _ => FlowAction::Ignore,
                        }
                    },
                    CaptureAction::Fail(err) => FlowAction::Fail(err),
                    CaptureAction::Report(err) => {
                        *self = AuthFlow::Capturing { server, settings };
                        FlowAction::Report(err)
                    },
                    CaptureAction::Listen => {
                        *self = AuthFlow::Capturing { server, settings };
                        FlowAction::Listen
                    },
                    _ => {
                        *self = AuthFlow::Capturing { server, settings };
                        FlowAction::Ignore
                    },
                }
            },
            (AuthFlow::Granting { poller, bedrock }, FlowEvent::Poll(event)) => {
                let mut poller = poller;
                match poller.step(event) {
                    PollAction::Prompt(session, request) => {
                        *self = AuthFlow::Granting { poller, bedrock };
                        FlowAction::Prompt(session, request)
                    },
                    PollAction::Wait(seconds, request) => {
                        *self = AuthFlow::Granting { poller, bedrock };
                        FlowAction::Wait(seconds, request)
                    },
                    PollAction::Succeed(token) => {
                        let (exchange, request) = Exchange::from_token(
                            token.token.as_str(),
                            bedrock,
                        );
                        *self = AuthFlow::Exchanging(exchange);
                        FlowAction::Send(Stage::Xbl, request)
                    },
                    PollAction::Fail(err) => FlowAction::Fail(err),
                    PollAction::Ignore => {
                        *self = AuthFlow::Granting { poller, bedrock };
                        FlowAction::Ignore
                    },
                }
            },
            (AuthFlow::Exchanging(exchange), FlowEvent::Exchange(event)) => {
                let mut exchange = exchange;
                match exchange.step(event) {
                    ExchangeAction::Send(stage, request) => {
                        *self = AuthFlow::Exchanging(exchange);
                        FlowAction::Send(stage, request)
                    },
                    ExchangeAction::Finish(credential) => {
                        *self = AuthFlow::Done;
                        FlowAction::Finish(credential)
                    },
                    ExchangeAction::Fail(err) => FlowAction::Fail(err),
                    ExchangeAction::Ignore => {
                        *self = AuthFlow::Exchanging(exchange);
                        FlowAction::Ignore
                    },
                }
            },
            (state, _) => {
                *self = state;
                FlowAction::Ignore
            },
        }
    }
}

} // verus!
