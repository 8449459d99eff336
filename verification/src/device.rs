//! The device code grant: the request for a code, and the polling for the
//! token at the pace that the provider sets, as a state machine.

use vstd::prelude::*;
use vstd::string::StringExecFns;
use crate::errors::{AuthErrors, AuthErrorsView, Stage};
use crate::exchange::{
    failure, failure_of, settle, settled, with_detail, Fault, HttpRequest, HttpRequestView, Reply,
    ReplyView, TOKEN_URL,
};
use crate::text::{joined, same_text};

verus! {

/// Where a device and user code pair is asked for.
pub const DEVICE_CODE_URL: &'static str =
    "https://login.microsoftonline.com/consumers/oauth2/v2.0/devicecode";

/// The seconds by which the pace slows when the provider asks for it.
pub const SLOW_DOWN_STEP: u64 = 5;

/// What the provider answers to the request for a device code.
#[derive(Debug)]
pub struct CodeResponse {
    pub device_code: String,
    pub user_code: String,
    pub verification_uri: String,
    pub expires_in: u32,
    pub interval: u16,
    pub message: String,
}

/// A `CodeResponse` as plain values.
pub struct DeviceCodeSession {
    pub device_code: Seq<char>,
    pub user_code: Seq<char>,
    pub verification_uri: Seq<char>,
    pub expires_in: u32,
    pub interval: u16,
    pub message: Seq<char>,
}

impl View for CodeResponse {
    type V = DeviceCodeSession;

    open spec fn view(&self) -> DeviceCodeSession {
        DeviceCodeSession {
            device_code: self.device_code@,
            user_code: self.user_code@,
            verification_uri: self.verification_uri@,
            expires_in: self.expires_in,
            interval: self.interval,
            message: self.message@,
        }
    }
}

/// What the provider answers once the user has approved the device.
#[derive(Debug)]
pub struct AuthenticationResponse {
    pub expires_in: u16,
    pub access_token: String,
}

/// The time for which a token holds, and the token.
#[derive(Debug)]
pub struct CodeInfo {
    /// The seconds for which the token holds.
    pub expires_in: u16,
    /// The token.
    pub token: String,
}

/// A token with the time for which it holds, as plain values: the view of
/// `AuthenticationResponse` and of `CodeInfo`.
pub struct TimedToken {
    pub expires_in: u16,
    pub token: Seq<char>,
}

impl View for AuthenticationResponse {
    type V = TimedToken;

    open spec fn view(&self) -> TimedToken {
        TimedToken { expires_in: self.expires_in, token: self.access_token@ }
    }
}

impl View for CodeInfo {
    type V = TimedToken;

    open spec fn view(&self) -> TimedToken {
        TimedToken { expires_in: self.expires_in, token: self.token@ }
    }
}

/// The body of the provider's answer to one poll.
#[derive(Debug)]
pub enum PollBody {
    /// The token.
    Granted(AuthenticationResponse),
    /// No token: the provider's error code and its words on it.
    Refused { error: String, description: String },
}

/// A `PollBody` as plain values.
pub enum PollBodyView {
    Granted(TimedToken),
    Refused { error: Seq<char>, description: Seq<char> },
}

impl View for PollBody {
    type V = PollBodyView;

    open spec fn view(&self) -> PollBodyView {
        match self {
            PollBody::Granted(r) => PollBodyView::Granted(r@),
            PollBody::Refused { error, description } => PollBodyView::Refused {
                error: error@,
                description: description@,
            },
        }
    }
}

/// What an error code of the provider means for the polling.
#[derive(Debug, Clone, Copy, PartialEq, Eq, Structural)]
pub enum Verdict {
    /// The user has not decided yet: poll again at the same pace.
    Pending,
    /// Poll again, more slowly.
    SlowDown,
    /// The device code has run out.
    Expired,
    /// The user declined.
    Denied,
    /// Anything else: the grant failed.
    Other,
}

/// What an error code of the provider means for the polling.
pub open spec fn verdict_of(error: Seq<char>) -> Verdict {
    if error == "authorization_pending"@ {
        Verdict::Pending
    } else if error == "slow_down"@ {
        Verdict::SlowDown
    } else if error == "expired_token"@ {
        Verdict::Expired
    } else if error == "access_denied"@ {
        Verdict::Denied
    } else {
        Verdict::Other
    }
}

/// What an error code of the provider means for the polling.
pub fn verdict(error: &str) -> (v: Verdict)
    ensures
        v == verdict_of(error@),
{
    if same_text(error, "authorization_pending") {
        Verdict::Pending
    } else if same_text(error, "slow_down") {
        Verdict::SlowDown
    } else if same_text(error, "expired_token") {
        Verdict::Expired
    } else if same_text(error, "access_denied") {
        Verdict::Denied
    } else {
        Verdict::Other
    }
}

/// The header under which a form is sent.
pub open spec fn form_headers() -> Seq<(Seq<char>, Seq<char>)> {
    seq![("Content-Type"@, "application/x-www-form-urlencoded"@)]
}

/// The request for a device and user code pair.
pub open spec fn device_code_request_of(client_id: Seq<char>, scope: Seq<char>)
    -> HttpRequestView {
    HttpRequestView {
        url: DEVICE_CODE_URL@,
        body: "client_id="@ + client_id + "&scope="@ + scope,
        headers: Seq::empty(),
    }
}

/// One poll for the token of a device code.
pub open spec fn device_token_request_of(device_code: Seq<char>, client_id: Seq<char>)
    -> HttpRequestView {
    HttpRequestView {
        url: TOKEN_URL@,
        body: "grant_type=urn:ietf:params:oauth:grant-type:device_code&client_id="@ + client_id
            + "&device_code="@ + device_code,
        headers: form_headers(),
    }
}

/// The request for a device and user code pair.
pub fn device_code_request(client_id: &str, scope: &str) -> (request: HttpRequest)
    ensures
        request@ == device_code_request_of(client_id@, scope@),
{
    let mut body = joined("client_id=", client_id);
    body.append("&scope=");
    body.append(scope);
    let headers: Vec<(String, String)> = Vec::new();
    assert(headers.deep_view() =~= Seq::empty());
    HttpRequest { url: String::from_str(DEVICE_CODE_URL), body, headers }
}

/// One poll for the token of a device code.
pub fn device_token_request(device_code: &str, client_id: &str) -> (request: HttpRequest)
    ensures
        request@ == device_token_request_of(device_code@, client_id@),
{
    let mut body = joined(
        "grant_type=urn:ietf:params:oauth:grant-type:device_code&client_id=",
        client_id,
    );
    body.append("&device_code=");
    body.append(device_code);
    let mut headers: Vec<(String, String)> = Vec::new();
    headers.push(
        (String::from_str("Content-Type"), String::from_str("application/x-www-form-urlencoded")),
    );
    assert(headers.deep_view() =~= form_headers());
    HttpRequest { url: String::from_str(TOKEN_URL), body, headers }
}

/// Where the polling stands.
#[derive(Debug, Clone, Copy, PartialEq, Eq, Structural)]
pub enum PollPhase {
    /// The device code was asked for.
    Requested,
    /// The token is polled for.
    Polling,
    /// The token came.
    Succeeded,
    /// The device code ran out.
    Expired,
    /// The user declined.
    Denied,
    /// The provider could not be reached or understood.
    Failed,
}

/// What came back from the provider.
#[derive(Debug)]
pub enum PollEvent {
    /// The answer to the request for a device code.
    Session(Reply<CodeResponse>),
    /// The answer to one poll.
    Polled(Reply<PollBody>),
}

/// A `PollEvent` as plain values.
pub enum PollEventView {
    Session(ReplyView<DeviceCodeSession>),
    Polled(ReplyView<PollBodyView>),
}

impl View for PollEvent {
    type V = PollEventView;

    open spec fn view(&self) -> PollEventView {
        match self {
            PollEvent::Session(r) => PollEventView::Session(r@),
            PollEvent::Polled(r) => PollEventView::Polled(r@),
        }
    }
}

/// What is to be done after an answer.
#[derive(Debug)]
pub enum PollAction {
    /// Show the code to the user and poll at once.
    Prompt(CodeResponse, HttpRequest),
    /// Wait this many seconds, then poll.
    Wait(u64, HttpRequest),
    /// The token came: go on with the exchange.
    Succeed(CodeInfo),
    /// The grant is over without a token.
    Fail(AuthErrors),
    /// The answer is none that is waited for: nothing is done.
    Ignore,
}

/// A `PollAction` as plain values.
pub enum PollActionView {
    Prompt(DeviceCodeSession, HttpRequestView),
    Wait(nat, HttpRequestView),
    Succeed(TimedToken),
    Fail(AuthErrorsView),
    Ignore,
}

impl View for PollAction {
    type V = PollActionView;

    open spec fn view(&self) -> PollActionView {
        match self {
            PollAction::Prompt(session, request) => PollActionView::Prompt(session@, request@),
            PollAction::Wait(seconds, request) => PollActionView::Wait(*seconds as nat, request@),
            PollAction::Succeed(info) => PollActionView::Succeed(info@),
            PollAction::Fail(e) => PollActionView::Fail(e@),
            PollAction::Ignore => PollActionView::Ignore,
        }
    }
}

/// The poller as plain values: the phase, whose code is polled for, the
/// seconds the code holds, the seconds between two polls, and the seconds
/// waited so far.
pub struct PollerView {
    pub phase: PollPhase,
    pub client_id: Seq<char>,
    pub device_code: Seq<char>,
    pub expires_in: nat,
    pub interval: nat,
    pub elapsed: nat,
}

impl PollerView {
    /// While the token is polled for, the time waited lies within the time
    /// for which the code holds.
    pub open spec fn wf(self) -> bool {
        &&& self.phase == PollPhase::Polling ==> self.elapsed < self.expires_in
        &&& self.phase == PollPhase::Requested ==> self.elapsed == 0
        &&& self.elapsed == 0 || self.elapsed < self.expires_in
        &&& self.expires_in <= u32::MAX
        &&& self.interval <= u32::MAX
    }

    /// The state in another phase.
    pub open spec fn at(self, phase: PollPhase) -> PollerView {
        PollerView { phase, ..self }
    }

    /// What follows an answer after which the next poll is due in `pace`
    /// seconds: the wait, where the code still holds when it is over, else
    /// the end of the grant.
    pub open spec fn after_wait(self, pace: nat) -> (PollerView, PollActionView) {
        if self.elapsed + pace >= self.expires_in {
            (self.at(PollPhase::Expired), PollActionView::Fail(AuthErrorsView::Expired))
        } else {
            (
                PollerView { interval: pace, elapsed: self.elapsed + pace, ..self },
                PollActionView::Wait(
                    pace,
                    device_token_request_of(self.device_code, self.client_id),
                ),
            )
        }
    }
}

/// A poller for `client_id` before the provider has answered the request
/// for a device code.
pub open spec fn requested(client_id: Seq<char>) -> PollerView {
    PollerView {
        phase: PollPhase::Requested,
        client_id,
        device_code: Seq::empty(),
        expires_in: 0,
        interval: 0,
        elapsed: 0,
    }
}

/// The poller's next state and what is to be done, for an answer.
pub open spec fn poll_step(s: PollerView, e: PollEventView) -> (PollerView, PollActionView) {
    match (s.phase, e) {
        (PollPhase::Requested, PollEventView::Session(reply)) => match settled(
            Stage::DeviceCode,
            reply,
        ) {
            Ok(session) => if session.expires_in == 0 {
                (s.at(PollPhase::Expired), PollActionView::Fail(AuthErrorsView::Expired))
            } else {
                (
                    PollerView {
                        phase: PollPhase::Polling,
                        client_id: s.client_id,
                        device_code: session.device_code,
                        expires_in: session.expires_in as nat,
                        interval: session.interval as nat,
                        elapsed: 0,
                    },
                    PollActionView::Prompt(
                        session,
                        device_token_request_of(session.device_code, s.client_id),
                    ),
                )
            },
            Err(err) => (s.at(PollPhase::Failed), PollActionView::Fail(err)),
        },
        (PollPhase::Polling, PollEventView::Polled(reply)) => match settled(
            Stage::DeviceToken,
            reply,
        ) {
            Ok(PollBodyView::Granted(token)) => (
                s.at(PollPhase::Succeeded),
                PollActionView::Succeed(token),
            ),
            Ok(PollBodyView::Refused { error, description }) => match verdict_of(error) {
                Verdict::Pending => s.after_wait(s.interval),
                Verdict::SlowDown => s.after_wait(s.interval + SLOW_DOWN_STEP as nat),
                Verdict::Expired => (
                    s.at(PollPhase::Expired),
                    PollActionView::Fail(AuthErrorsView::Expired),
                ),
                Verdict::Denied => (
                    s.at(PollPhase::Denied),
                    PollActionView::Fail(AuthErrorsView::Denied),
                ),
                Verdict::Other => (
                    s.at(PollPhase::Failed),
                    PollActionView::Fail(
                        failure_of(
                            Stage::DeviceToken,
                            Fault::Undecoded,
                            with_detail(error, description),
                        ),
                    ),
                ),
            },
            Err(err) => (s.at(PollPhase::Failed), PollActionView::Fail(err)),
        },
        _ => (s, PollActionView::Ignore),
    }
}

/// The poller's state after a run of answers.
pub open spec fn poll_run(s: PollerView, events: Seq<PollEventView>) -> PollerView
    decreases events.len(),
{
    if events.len() == 0 {
        s
    } else {
        poll_step(poll_run(s, events.drop_last()), events.last()).0
    }
}

/// What is done on the answer of index `i` of a run.
pub open spec fn poll_action_at(s: PollerView, events: Seq<PollEventView>, i: int)
    -> PollActionView {
    poll_step(poll_run(s, events.take(i)), events[i]).1
}

/// The seconds that an action has the caller wait.
pub open spec fn seconds_of(action: PollActionView) -> nat {
    match action {
        PollActionView::Wait(seconds, _) => seconds,
        _ => 0,
    }
}

/// The seconds that a run has the caller wait, all waits together.
pub open spec fn waited(s: PollerView, events: Seq<PollEventView>) -> nat
    decreases events.len(),
{
    if events.len() == 0 {
        0
    } else {
        waited(s, events.drop_last()) + seconds_of(
            poll_action_at(s, events, events.len() - 1),
        )
    }
}

/// Whether the poller may pass from one phase to another in one step: from
/// the request to polling, and from either to an end.
pub open spec fn poll_follows(from: PollPhase, to: PollPhase) -> bool {
    ||| from == PollPhase::Requested && to == PollPhase::Polling
    ||| from == PollPhase::Requested && (to == PollPhase::Expired || to == PollPhase::Failed)
    ||| from == PollPhase::Polling && (to == PollPhase::Succeeded || to == PollPhase::Expired
        || to == PollPhase::Denied || to == PollPhase::Failed)
}

/// One answer leaves the phase as it is or moves it along one of the ways
/// that `poll_follows` names. The token is handed on exactly when the
/// poller succeeds, and a failure is reported exactly when it ends
/// otherwise.
pub proof fn lemma_poll_moves(s: PollerView, e: PollEventView)
    ensures
        poll_step(s, e).0.phase == s.phase || poll_follows(s.phase, poll_step(s, e).0.phase),
        poll_step(s, e).1 is Succeed <==> poll_step(s, e).0.phase == PollPhase::Succeeded
            && s.phase == PollPhase::Polling,
        poll_step(s, e).1 is Fail <==> poll_step(s, e).0.phase != s.phase && (poll_step(
            s,
            e,
        ).0.phase == PollPhase::Expired || poll_step(s, e).0.phase == PollPhase::Denied
            || poll_step(s, e).0.phase == PollPhase::Failed),
        poll_step(s, e).1 matches PollActionView::Fail(err) ==> (err is Expired <==> poll_step(
            s,
            e,
        ).0.phase == PollPhase::Expired) && (err is Denied <==> poll_step(s, e).0.phase
            == PollPhase::Denied),
{
}

/// One answer keeps the poller well-formed. A wait is at least as long as
/// the pace was, becomes the new pace, and ends before the code runs out;
/// where the next poll would come no sooner than that, the grant ends as
/// expired instead. The pace never quickens.
pub proof fn lemma_poll_step(s: PollerView, e: PollEventView)
    requires
        s.wf(),
    ensures
        poll_step(s, e).0.wf(),
        poll_step(s, e).0.elapsed == s.elapsed + seconds_of(poll_step(s, e).1),
        poll_step(s, e).1 matches PollActionView::Wait(seconds, _) ==> {
            &&& s.phase == PollPhase::Polling
            &&& poll_step(s, e).0.phase == PollPhase::Polling
            &&& seconds >= s.interval
            &&& seconds == poll_step(s, e).0.interval
            &&& s.elapsed + seconds < s.expires_in
        },
        s.phase == PollPhase::Polling ==> poll_step(s, e).0.interval >= s.interval
            && poll_step(s, e).0.expires_in == s.expires_in,
        e matches PollEventView::Polled(ReplyView::Decoded(PollBodyView::Refused { error, .. }))
            && verdict_of(error) == Verdict::Pending && s.phase == PollPhase::Polling
            && s.elapsed + s.interval >= s.expires_in ==> poll_step(s, e).1
            == PollActionView::Fail(AuthErrorsView::Expired),
        s.phase != PollPhase::Requested && s.phase != PollPhase::Polling ==> poll_step(s, e)
            == (s, PollActionView::Ignore),
{
}

/// Over every run the poller stays well-formed, and the seconds waited, all
/// waits together, are those that the poller counts: they stay below the
/// time for which the device code holds.
pub proof fn lemma_waits_within_budget(s: PollerView, events: Seq<PollEventView>)
    requires
        s.wf(),
    ensures
        poll_run(s, events).wf(),
        poll_run(s, events).elapsed == s.elapsed + waited(s, events),
        waited(s, events) == 0 || s.elapsed + waited(s, events) < poll_run(s, events).expires_in,
        s.phase == PollPhase::Polling ==> poll_run(s, events).expires_in == s.expires_in
            && poll_run(s, events).interval >= s.interval,
    decreases events.len(),
{
    if events.len() > 0 {
        let before = events.drop_last();
        lemma_waits_within_budget(s, before);
        assert(events.take(events.len() - 1) =~= before);
        lemma_poll_step(poll_run(s, before), events.last());
        if s.phase != PollPhase::Requested {
            lemma_poll_stays(s, before);
        }
    }
}

/// A poller that polls either polls still or is over: it asks for no
/// second device code.
pub proof fn lemma_poll_stays(s: PollerView, events: Seq<PollEventView>)
    requires
        s.phase != PollPhase::Requested,
    ensures
        poll_run(s, events).phase != PollPhase::Requested,
        s.phase != PollPhase::Polling ==> poll_run(s, events) == s,
    decreases events.len(),
{
    if events.len() > 0 {
        lemma_poll_stays(s, events.drop_last());
    }
}

/// Every wait of a run that starts in polling is at least as long as the
/// pace was at the start.
pub proof fn lemma_waits_keep_pace(s: PollerView, events: Seq<PollEventView>, i: int)
    requires
        s.wf(),
        s.phase == PollPhase::Polling,
        0 <= i < events.len(),
        poll_action_at(s, events, i) is Wait,
    ensures
        seconds_of(poll_action_at(s, events, i)) >= s.interval,
{
    lemma_waits_within_budget(s, events.take(i));
    lemma_poll_step(poll_run(s, events.take(i)), events[i]);
}

/// The poller of the device code grant.
#[derive(Debug)]
pub struct DevicePoller {
    phase: PollPhase,
    client_id: String,
    device_code: String,
    expires_in: u32,
    interval: u64,
    elapsed: u64,
}

impl View for DevicePoller {
    type V = PollerView;

    closed spec fn view(&self) -> PollerView {
        PollerView {
            phase: self.phase,
            client_id: self.client_id@,
            device_code: self.device_code@,
            expires_in: self.expires_in as nat,
            interval: self.interval as nat,
            elapsed: self.elapsed as nat,
        }
    }
}

impl DevicePoller {
    #[verifier::type_invariant]
    spec fn inv(self) -> bool {
        self@.wf()
    }

    /// A poller for `client_id` that waits for the provider's answer to the
    /// request for a device code.
    pub fn new(client_id: &str) -> (poller: DevicePoller)
        ensures
            poller@ == requested(client_id@),
    {
        DevicePoller {
            phase: PollPhase::Requested,
            client_id: String::from_str(client_id),
            device_code: String::new(),
            expires_in: 0,
            interval: 0,
            elapsed: 0,
        }
    }

    /// A poller for `client_id`, and the request for a device code that is
    /// to be sent.
    pub fn request(client_id: &str, scope: &str) -> (opened: (DevicePoller, HttpRequest))
        ensures
            opened.0@ == requested(client_id@),
            opened.1@ == device_code_request_of(client_id@, scope@),
    {
        (DevicePoller::new(client_id), device_code_request(client_id, scope))
    }

    /// Where the polling stands.
    pub fn phase(&self) -> (phase: PollPhase)
        ensures
            phase == self@.phase,
            self@.wf(),
    {
        proof {
            use_type_invariant(self);
        }
        self.phase
    }

    /// The seconds between two polls.
    pub fn interval(&self) -> (seconds: u64)
        ensures
            seconds == self@.interval,
    {
        self.interval
    }

    /// The seconds waited so far.
    pub fn elapsed(&self) -> (seconds: u64)
        ensures
            seconds == self@.elapsed,
    {
        self.elapsed
    }

    /// The seconds for which the device code holds.
    pub fn expires_in(&self) -> (seconds: u32)
        ensures
            seconds == self@.expires_in,
    {
        self.expires_in
    }

    fn wait(&mut self, pace: u64) -> (action: PollAction)
        requires
            old(self)@.phase == PollPhase::Polling,
            pace <= u32::MAX + SLOW_DOWN_STEP,
        ensures
            (final(self)@, action@) == old(self)@.after_wait(pace as nat),
    {
        proof {
            use_type_invariant(&*self);
        }
        if self.elapsed + pace >= self.expires_in as u64 {
            self.phase = PollPhase::Expired;
            PollAction::Fail(AuthErrors::Expired)
        } else {
            self.interval = pace;
            self.elapsed = self.elapsed + pace;
            PollAction::Wait(
                pace,
                device_token_request(self.device_code.as_str(), self.client_id.as_str()),
            )
        }
    }

    /// Takes an answer of the provider, moves on and says what is to be
    /// done.
    pub fn step(&mut self, event: PollEvent) -> (action: PollAction)
        ensures
            (final(self)@, action@) == poll_step(old(self)@, event@),
            final(self)@.wf(),
    {
        proof {
            use_type_invariant(&*self);
            lemma_poll_step(self@, event@);
        }
        match (self.phase, event) {
            (PollPhase::Requested, PollEvent::Session(reply)) => {
                match settle(Stage::DeviceCode, reply) {
                    Ok(session) => {
                        if session.expires_in == 0 {
                            self.phase = PollPhase::Expired;
                            PollAction::Fail(AuthErrors::Expired)
                        } else {
                            self.expires_in = session.expires_in;
                            self.interval = session.interval as u64;
                            self.device_code = session.device_code.clone();
                            self.phase = PollPhase::Polling;
                            let request = device_token_request(
                                session.device_code.as_str(),
                                self.client_id.as_str(),
                            );
                            PollAction::Prompt(session, request)
                        }
                    },
                    Err(err) => {
                        self.phase = PollPhase::Failed;
                        PollAction::Fail(err)
                    },
                }
            },
            (PollPhase::Polling, PollEvent::Polled(reply)) => {
                match settle(Stage::DeviceToken, reply) {
                    Ok(PollBody::Granted(token)) => {
                        self.phase = PollPhase::Succeeded;
                        PollAction::Succeed(
                            CodeInfo { expires_in: token.expires_in, token: token.access_token },
                        )
                    },
                    Ok(PollBody::Refused { error, description }) => {
                        match verdict(error.as_str()) {
                            Verdict::Pending => {
                                let pace = self.interval;
                                self.wait(pace)
                            },
                            Verdict::SlowDown => {
                                let pace = self.interval + SLOW_DOWN_STEP;
                                self.wait(pace)
                            },
                            Verdict::Expired => {
                                self.phase = PollPhase::Expired;
                                PollAction::Fail(AuthErrors::Expired)
                            },
                            Verdict::Denied => {
                                self.phase = PollPhase::Denied;
                                PollAction::Fail(AuthErrors::Denied)
                            },
                            Verdict::Other => {
                                self.phase = PollPhase::Failed;
                                let mut detail = error;
                                if !description.as_str().is_empty() {
                                    detail.append(": ");
                                    detail.append(description.as_str());
                                }
                                PollAction::Fail(
                                    failure(Stage::DeviceToken, Fault::Undecoded, detail.as_str()),
                                )
                            },
                        }
                    },
                    Err(err) => {
                        self.phase = PollPhase::Failed;
                        PollAction::Fail(err)
                    },
                }
            },
            _ => PollAction::Ignore,
        }
    }
}

} // verus!
