//! The four hops in their order, as a state machine: each reply moves the
//! exchange one hop on, ends it with the credential, or fails it.

use vstd::prelude::*;
use crate::errors::{AuthErrors, AuthErrorsView, Stage};
use crate::exchange::{
    bearer_request, bearer_request_of, bearer_settle, bearer_settled, bedrock_credential, settle,
    settled, token_request, token_request_of, xbl_request, xbl_request_of, xbl_settle,
    xbl_settled, xsts_request, xsts_request_of, AadToken, CustomAuthData, HttpRequest,
    HttpRequestView, MinecraftAuthResult, MojangResponse, MojangResponseView, OuathToken, Reply,
    ReplyView, XblOutput, XboxToken, XtsOutput,
};

verus! {

/// The exchange: the hop whose reply is awaited, with what later hops need.
#[derive(Debug)]
pub enum Exchange {
    /// The code was sent; the provider's token is awaited.
    Token { bedrock: bool },
    /// The provider's token was sent; the Xbox Live user token is awaited.
    Xbl { bedrock: bool },
    /// The user token was sent; the XSTS token is awaited.
    Xsts { bedrock: bool, userhash: String },
    /// The XSTS token was sent to the platform; its token is awaited. Only
    /// an exchange for the Java edition comes here.
    Bearer,
    /// The credential was handed out.
    Done,
    /// A hop failed.
    Failed,
}

/// An `Exchange` as plain values.
pub enum ExchangeView {
    Token { bedrock: bool },
    Xbl { bedrock: bool },
    Xsts { bedrock: bool, userhash: Seq<char> },
    Bearer,
    Done,
    Failed,
}

impl View for Exchange {
    type V = ExchangeView;

    open spec fn view(&self) -> ExchangeView {
        match self {
            Exchange::Token { bedrock } => ExchangeView::Token { bedrock: *bedrock },
            Exchange::Xbl { bedrock } => ExchangeView::Xbl { bedrock: *bedrock },
            Exchange::Xsts { bedrock, userhash } => ExchangeView::Xsts {
                bedrock: *bedrock,
                userhash: userhash@,
            },
            Exchange::Bearer => ExchangeView::Bearer,
            Exchange::Done => ExchangeView::Done,
            Exchange::Failed => ExchangeView::Failed,
        }
    }
}

impl ExchangeView {
    /// Whether the exchange is for the Bedrock realms service.
    pub open spec fn targets_bedrock(self) -> bool {
        match self {
            ExchangeView::Token { bedrock } => bedrock,
            ExchangeView::Xbl { bedrock } => bedrock,
            ExchangeView::Xsts { bedrock, .. } => bedrock,
            _ => false,
        }
    }

    /// How far the exchange has come: the number of its hop, and 5 once it
    /// is over.
    pub open spec fn rank(self) -> nat {
        match self {
            ExchangeView::Token { .. } => 1,
            ExchangeView::Xbl { .. } => 2,
            ExchangeView::Xsts { .. } => 3,
            ExchangeView::Bearer => 4,
            ExchangeView::Done => 5,
            ExchangeView::Failed => 5,
        }
    }
}

/// The number of the hop that a stage's request opens.
pub open spec fn stage_rank(stage: Stage) -> nat {
    match stage {
        Stage::Token => 1,
        Stage::Xbl => 2,
        Stage::Xsts => 3,
        Stage::Bearer => 4,
        _ => 0,
    }
}

/// The reply of one hop.
#[derive(Debug)]
pub enum ExchangeEvent {
    Token(Reply<OuathToken>),
    Xbl(Reply<XblOutput>),
    Xsts(Reply<XtsOutput>),
    Bearer(Reply<MojangResponse>),
}

/// An `ExchangeEvent` as plain values.
pub enum ExchangeEventView {
    Token(ReplyView<AadToken>),
    Xbl(ReplyView<XboxToken>),
    Xsts(ReplyView<XboxToken>),
    Bearer(ReplyView<MojangResponseView>),
}

impl View for ExchangeEvent {
    type V = ExchangeEventView;

    open spec fn view(&self) -> ExchangeEventView {
        match self {
            ExchangeEvent::Token(r) => ExchangeEventView::Token(r@),
            ExchangeEvent::Xbl(r) => ExchangeEventView::Xbl(r@),
            ExchangeEvent::Xsts(r) => ExchangeEventView::Xsts(r@),
            ExchangeEvent::Bearer(r) => ExchangeEventView::Bearer(r@),
        }
    }
}

/// What is to be done after a reply.
#[derive(Debug)]
pub enum ExchangeAction {
    /// Send the request of this stage and come back with its reply.
    Send(Stage, HttpRequest),
    /// The flow is over: this is the credential.
    Finish(CustomAuthData),
    /// The flow is over: this hop failed.
    Fail(AuthErrors),
    /// The reply is none that the exchange waits for: nothing is done.
    Ignore,
}

/// An `ExchangeAction` as plain values.
pub enum ExchangeActionView {
    Send(Stage, HttpRequestView),
    Finish(MinecraftAuthResult),
    Fail(AuthErrorsView),
    Ignore,
}

impl View for ExchangeAction {
    type V = ExchangeActionView;

    open spec fn view(&self) -> ExchangeActionView {
        match self {
            ExchangeAction::Send(stage, request) => ExchangeActionView::Send(*stage, request@),
            ExchangeAction::Finish(c) => ExchangeActionView::Finish(c@),
            ExchangeAction::Fail(e) => ExchangeActionView::Fail(e@),
            ExchangeAction::Ignore => ExchangeActionView::Ignore,
        }
    }
}

/// The exchange's next state and what is to be done, for a reply. A reply
/// counts only at the hop that waits for it; a hop's request goes out only
/// when the hop before it has answered well.
pub open spec fn exchange_step(s: ExchangeView, e: ExchangeEventView) -> (
    ExchangeView,
    ExchangeActionView,
) {
    match (s, e) {
        (ExchangeView::Token { bedrock }, ExchangeEventView::Token(reply)) => match settled(
            Stage::Token,
            reply,
        ) {
            Ok(token) => (
                ExchangeView::Xbl { bedrock },
                ExchangeActionView::Send(Stage::Xbl, xbl_request_of(token.access_token)),
            ),
            Err(err) => (ExchangeView::Failed, ExchangeActionView::Fail(err)),
        },
        (ExchangeView::Xbl { bedrock }, ExchangeEventView::Xbl(reply)) => match xbl_settled(
            reply,
        ) {
            Ok(xbl) => (
                ExchangeView::Xsts { bedrock, userhash: xbl.user_hashes[0] },
                ExchangeActionView::Send(Stage::Xsts, xsts_request_of(xbl.token, bedrock)),
            ),
            Err(err) => (ExchangeView::Failed, ExchangeActionView::Fail(err)),
        },
        (ExchangeView::Xsts { bedrock, userhash }, ExchangeEventView::Xsts(reply)) => match settled(
            Stage::Xsts,
            reply,
        ) {
            Ok(xsts) => if bedrock {
                (ExchangeView::Done, ExchangeActionView::Finish(bedrock_credential(xsts.token)))
            } else {
                (
                    ExchangeView::Bearer,
                    ExchangeActionView::Send(Stage::Bearer, bearer_request_of(userhash, xsts.token)),
                )
            },
            Err(err) => (ExchangeView::Failed, ExchangeActionView::Fail(err)),
        },
        (ExchangeView::Bearer, ExchangeEventView::Bearer(reply)) => match bearer_settled(reply) {
            Ok(credential) => (ExchangeView::Done, ExchangeActionView::Finish(credential)),
            Err(err) => (ExchangeView::Failed, ExchangeActionView::Fail(err)),
        },
        _ => (s, ExchangeActionView::Ignore),
    }
}

/// The exchange's state after a run of replies.
pub open spec fn exchange_run(s: ExchangeView, events: Seq<ExchangeEventView>) -> ExchangeView
    decreases events.len(),
{
    if events.len() == 0 {
        s
    } else {
        exchange_step(exchange_run(s, events.drop_last()), events.last()).0
    }
}

/// What is done on the reply of index `i` of a run.
pub open spec fn exchange_action_at(s: ExchangeView, events: Seq<ExchangeEventView>, i: int)
    -> ExchangeActionView {
    exchange_step(exchange_run(s, events.take(i)), events[i]).1
}

/// A reply that is not waited for changes nothing. Every other reply moves
/// the exchange forward: a request goes out exactly when the next hop is
/// entered, and it is the request of that hop; a credential ends the
/// exchange in `Done`, a failure in `Failed`.
pub proof fn lemma_step_forward(s: ExchangeView, e: ExchangeEventView)
    ensures
        exchange_step(s, e).1 is Ignore ==> exchange_step(s, e).0 == s,
        !(exchange_step(s, e).1 is Ignore) ==> exchange_step(s, e).0.rank() > s.rank(),
        exchange_step(s, e).1 matches ExchangeActionView::Send(stage, _) ==> stage_rank(stage)
            == exchange_step(s, e).0.rank() && exchange_step(s, e).0.rank() == s.rank() + 1,
        exchange_step(s, e).1 is Finish ==> exchange_step(s, e).0 is Done,
        exchange_step(s, e).1 is Fail ==> exchange_step(s, e).0 is Failed,
        s is Done || s is Failed ==> exchange_step(s, e).1 is Ignore,
{
}

/// Of the two tokens of a credential exactly one is there: the XSTS token
/// for the Bedrock realms service, the bearer token otherwise.
pub proof fn lemma_one_token(s: ExchangeView, e: ExchangeEventView)
    ensures
        exchange_step(s, e).1 matches ExchangeActionView::Finish(c) ==> (c.access_token is Some)
            != (c.xts_token is Some) && (c.xts_token is Some <==> s.targets_bedrock()),
{
}

/// The exchange never goes back: over a longer run it has come at least as
/// far as over a shorter one.
pub proof fn lemma_run_forward(s: ExchangeView, events: Seq<ExchangeEventView>, i: int, j: int)
    requires
        0 <= i <= j <= events.len(),
    ensures
        exchange_run(s, events.take(i)).rank() <= exchange_run(s, events.take(j)).rank(),
    decreases j - i,
{
    if i < j {
        lemma_run_forward(s, events, i, j - 1);
        assert(events.take(j).drop_last() =~= events.take(j - 1));
        lemma_step_forward(exchange_run(s, events.take(j - 1)), events[j - 1]);
    }
}

/// The requests of a run go out in the order of the hops, each at most
/// once: a later request is that of a later hop.
pub proof fn lemma_hops_in_order(s: ExchangeView, events: Seq<ExchangeEventView>, i: int, j: int)
    requires
        0 <= i < j < events.len(),
        exchange_action_at(s, events, i) is Send,
        exchange_action_at(s, events, j) is Send,
    ensures
        stage_rank(exchange_action_at(s, events, i)->Send_0) < stage_rank(
            exchange_action_at(s, events, j)->Send_0,
        ),
{
    lemma_step_forward(exchange_run(s, events.take(i)), events[i]);
    lemma_step_forward(exchange_run(s, events.take(j)), events[j]);
    assert(events.take(i + 1).drop_last() =~= events.take(i));
    lemma_run_forward(s, events, i + 1, j);
}

/// An exchange for the Bedrock realms service stays one until it is over,
/// and never waits for the platform's token.
pub proof fn lemma_bedrock_stays(s: ExchangeView, events: Seq<ExchangeEventView>)
    requires
        s.targets_bedrock(),
    ensures
        exchange_run(s, events).targets_bedrock() || exchange_run(s, events) is Done
            || exchange_run(s, events) is Failed,
    decreases events.len(),
{
    if events.len() > 0 {
        lemma_bedrock_stays(s, events.drop_last());
    }
}

/// For the Bedrock realms service the fourth hop is never made: no request
/// to the platform goes out, whatever the replies, and a credential that
/// comes out holds the XSTS token and no bearer token.
pub proof fn lemma_bedrock_short_circuit(
    s: ExchangeView,
    events: Seq<ExchangeEventView>,
    i: int,
)
    requires
        s.targets_bedrock(),
        0 <= i < events.len(),
    ensures
        !(exchange_action_at(s, events, i) matches ExchangeActionView::Send(stage, _) && stage
            == Stage::Bearer),
        exchange_action_at(s, events, i) matches ExchangeActionView::Finish(c) ==> c.xts_token
            is Some && c.access_token is None && c.uuid is None && c.expires_in == 0,
{
    lemma_bedrock_stays(s, events.take(i));
}

/// An exchange for the Java edition stays one.
pub proof fn lemma_java_stays(s: ExchangeView, events: Seq<ExchangeEventView>)
    requires
        !s.targets_bedrock(),
    ensures
        !exchange_run(s, events).targets_bedrock(),
    decreases events.len(),
{
    if events.len() > 0 {
        lemma_java_stays(s, events.drop_last());
    }
}

/// For the Java edition a credential that comes out holds the bearer token
/// of the platform and no XSTS token.
pub proof fn lemma_java_credential(s: ExchangeView, events: Seq<ExchangeEventView>, i: int)
    requires
        !s.targets_bedrock(),
        0 <= i < events.len(),
    ensures
        exchange_action_at(s, events, i) matches ExchangeActionView::Finish(c) ==> c.access_token
            is Some && c.uuid is Some && c.xts_token is None,
{
    lemma_java_stays(s, events.take(i));
}

impl Exchange {
    /// Opens an exchange with the authorization code of the redirect: the
    /// first hop's request is to be sent.
    pub fn from_code(
        code: &str,
        client_id: &str,
        port: u16,
        client_secret: &str,
        scope: &str,
        bedrock: bool,
    ) -> (opened: (Exchange, HttpRequest))
        ensures
            opened.0@ == (ExchangeView::Token { bedrock }),
            opened.1@ == token_request_of(code@, client_id@, port, client_secret@, scope@),
    {
        (Exchange::Token { bedrock }, token_request(code, client_id, port, client_secret, scope))
    }

    /// Opens an exchange with a token that the provider has already given,
    /// as the device grant does: the first hop is left out and the second
    /// hop's request is to be sent.
    pub fn from_token(access_token: &str, bedrock: bool) -> (opened: (Exchange, HttpRequest))
        ensures
            opened.0@ == (ExchangeView::Xbl { bedrock }),
            opened.1@ == xbl_request_of(access_token@),
    {
        (Exchange::Xbl { bedrock }, xbl_request(access_token))
    }

    /// Whether the exchange is for the Bedrock realms service.
    pub fn targets_bedrock(&self) -> (bedrock: bool)
        ensures
            bedrock == self@.targets_bedrock(),
    {
        match self {
            Exchange::Token { bedrock } => *bedrock,
            Exchange::Xbl { bedrock } => *bedrock,
            Exchange::Xsts { bedrock, .. } => *bedrock,
            _ => false,
        }
    }

    /// Whether the exchange is over, well or not.
    pub fn is_over(&self) -> (over: bool)
        ensures
            over == (self@ is Done || self@ is Failed),
    {
        match self {
            Exchange::Done => true,
            Exchange::Failed => true,
            _ => false,
        }
    }

    /// Takes the reply of a hop, moves on and says what is to be done.
    pub fn step(&mut self, event: ExchangeEvent) -> (action: ExchangeAction)
        ensures
            (final(self)@, action@) == exchange_step(old(self)@, event@),
    {
        let mut state = Exchange::Failed;
        core::mem::swap(self, &mut state);
        match (state, event) {
            (Exchange::Token { bedrock }, ExchangeEvent::Token(reply)) => {
                match settle(Stage::Token, reply) {
                    Ok(token) => {
                        *self = Exchange::Xbl { bedrock };
                        ExchangeAction::Send(Stage::Xbl, xbl_request(token.access_token.as_str()))
                    },
                    Err(err) => ExchangeAction::Fail(err),
                }
            },
            (Exchange::Xbl { bedrock }, ExchangeEvent::Xbl(reply)) => {
                match xbl_settle(reply) {
                    Ok(xbl) => {
                        let request = xsts_request(xbl.token.as_str(), bedrock);
                        let mut claims = xbl.display_claims;
                        let first = claims.xui.swap_remove(0);
                        *self = Exchange::Xsts { bedrock, userhash: first.uhs };
                        ExchangeAction::Send(Stage::Xsts, request)
                    },
                    Err(err) => ExchangeAction::Fail(err),
                }
            },
            (Exchange::Xsts { bedrock, userhash }, ExchangeEvent::Xsts(reply)) => {
                match settle(Stage::Xsts, reply) {
                    Ok(xsts) => {
                        if bedrock {
                            *self = Exchange::Done;
                            ExchangeAction::Finish(
                                CustomAuthData {
                                    access_token: None,
                                    uuid: None,
                                    expires_in: 0,
                                    xts_token: Some(xsts.token),
                                },
                            )
                        } else {
                            *self = Exchange::Bearer;
                            ExchangeAction::Send(
                                Stage::Bearer,
                                bearer_request(userhash.as_str(), xsts.token.as_str()),
                            )
                        }
                    },
                    Err(err) => ExchangeAction::Fail(err),
                }
            },
            (Exchange::Bearer, ExchangeEvent::Bearer(reply)) => {
                match bearer_settle(reply) {
                    Ok(credential) => {
                        *self = Exchange::Done;
                        ExchangeAction::Finish(credential)
                    },
                    Err(err) => ExchangeAction::Fail(err),
                }
            },
            (state, _) => {
                *self = state;
                ExchangeAction::Ignore
            },
        }
    }
}

} // verus!
