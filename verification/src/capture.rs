//! The loopback listener that waits for the browser's redirect, as a state
//! machine: what is done on each event, and the one slot through which a
//! captured result reaches the caller.

use vstd::prelude::*;
use vstd::string::StringExecFns;
use crate::errors::{AuthErrors, AuthErrorsView};
use crate::query::{parse_oauth, parsed, AuthorizationResult, OuathInfo};
use crate::text::{decimal, joined, push_decimal};

verus! {

/// What a connection is answered with after its request was read, so that
/// the browser's tab can close.
pub const REDIRECT_REPLY: &'static str =
    "HTTP/1.1 200 OK\r\nContent-Length: 0\r\nConnection: close\r\n\r\n";

/// The most bytes that are read of a connection at once.
pub const READ_LIMIT: usize = 1024;

/// Where the listener stands.
#[derive(Debug, Clone, Copy, PartialEq, Eq, Structural)]
pub enum Phase {
    /// The port is not bound yet.
    Binding,
    /// Connections are accepted; the slot is empty.
    Listening,
    /// A result lies in the slot; connections are still accepted.
    Delivered,
    /// The result was handed out and the listener cancelled.
    Terminated,
    /// The port could not be bound.
    Failed,
}

/// What happened at the socket, or at the side of the caller.
#[derive(Debug)]
pub enum CaptureEvent {
    /// The port was bound.
    Bound,
    /// The port could not be bound; the cause in words.
    BindFailed(String),
    /// A connection could not be accepted.
    AcceptFailed(String),
    /// A connection could not be read.
    ReadFailed(String),
    /// The bytes that one read of a connection brought.
    Received(Vec<u8>),
    /// The caller asks for the result.
    Awaited,
}

/// A `CaptureEvent` as plain values.
pub enum CaptureEventView {
    Bound,
    BindFailed(Seq<char>),
    AcceptFailed(Seq<char>),
    ReadFailed(Seq<char>),
    Received(Seq<u8>),
    Awaited,
}

impl View for CaptureEvent {
    type V = CaptureEventView;

    open spec fn view(&self) -> CaptureEventView {
        match self {
            CaptureEvent::Bound => CaptureEventView::Bound,
            CaptureEvent::BindFailed(m) => CaptureEventView::BindFailed(m@),
            CaptureEvent::AcceptFailed(m) => CaptureEventView::AcceptFailed(m@),
            CaptureEvent::ReadFailed(m) => CaptureEventView::ReadFailed(m@),
            CaptureEvent::Received(b) => CaptureEventView::Received(b@),
            CaptureEvent::Awaited => CaptureEventView::Awaited,
        }
    }
}

/// What is to be done after an event.
#[derive(Debug)]
pub enum CaptureAction {
    /// Go on accepting connections.
    Listen,
    /// Log a failure of one connection and go on.
    Report(AuthErrors),
    /// Give up: the port is not to be had.
    Fail(AuthErrors),
    /// A result was placed in the slot: the caller may ask for it.
    Wake,
    /// A result came while the slot was full, and was dropped.
    Dropped,
    /// Nothing lies in the slot yet: the caller waits.
    Pending,
    /// Hand this to the caller and cancel the listener.
    Finish(Result<OuathInfo, AuthErrors>),
    /// The listener is no longer at work: nothing is done.
    Ignore,
}

/// A `CaptureAction` as plain values.
pub enum CaptureActionView {
    Listen,
    Report(AuthErrorsView),
    Fail(AuthErrorsView),
    Wake,
    Dropped,
    Pending,
    Finish(Result<AuthorizationResult, AuthErrorsView>),
    Ignore,
}

impl View for CaptureAction {
    type V = CaptureActionView;

    open spec fn view(&self) -> CaptureActionView {
        match self {
            CaptureAction::Listen => CaptureActionView::Listen,
            CaptureAction::Report(e) => CaptureActionView::Report(e@),
            CaptureAction::Fail(e) => CaptureActionView::Fail(e@),
            CaptureAction::Wake => CaptureActionView::Wake,
            CaptureAction::Dropped => CaptureActionView::Dropped,
            CaptureAction::Pending => CaptureActionView::Pending,
            CaptureAction::Finish(Ok(info)) => CaptureActionView::Finish(Ok(info@)),
            CaptureAction::Finish(Err(e)) => CaptureActionView::Finish(Err(e@)),
            CaptureAction::Ignore => CaptureActionView::Ignore,
        }
    }
}

/// The listener: its phase, and in `Delivered` the slot of capacity one
/// with the result that it holds.
#[derive(Debug)]
pub enum CaptureServer {
    /// The port is not bound yet.
    Binding,
    /// Connections are accepted; the slot is empty.
    Listening,
    /// A result lies in the slot; connections are still accepted.
    Delivered(OuathInfo),
    /// The result was handed out and the listener cancelled.
    Terminated,
    /// The port could not be bound.
    Failed,
}

/// A `CaptureServer` as plain values.
pub struct CaptureView {
    pub phase: Phase,
    pub slot: Option<AuthorizationResult>,
}

impl CaptureView {
    /// The slot is full exactly while a result waits for the caller.
    pub open spec fn wf(self) -> bool {
        self.slot is Some <==> self.phase == Phase::Delivered
    }
}

/// The address that the listener binds: the loopback interface at `port`.
pub open spec fn loopback_address(port: u16) -> Seq<char> {
    "127.0.0.1:"@ + decimal(port as nat)
}

/// Whether a field is there and holds at least one character.
pub open spec fn filled(field: Option<Seq<char>>) -> bool {
    field matches Some(text) && text.len() > 0
}

/// What the caller gets for a captured result: a failure where the provider
/// reported an error and described it, else the result itself.
pub open spec fn classified(info: AuthorizationResult) -> Result<
    AuthorizationResult,
    AuthErrorsView,
> {
    if filled(info.error) && filled(info.error_description) {
        Err(AuthErrorsView::AuthenticationFailure(info.error_description->0))
    } else {
        Ok(info)
    }
}

/// The listener's next state and what is to be done, for an event.
pub open spec fn capture_step(s: CaptureView, e: CaptureEventView) -> (
    CaptureView,
    CaptureActionView,
) {
    match s.phase {
        Phase::Binding => match e {
            CaptureEventView::Bound => (
                CaptureView { phase: Phase::Listening, slot: None },
                CaptureActionView::Listen,
            ),
            CaptureEventView::BindFailed(m) => (
                CaptureView { phase: Phase::Failed, slot: None },
                CaptureActionView::Fail(
                    AuthErrorsView::BindError("failed to bind listener; err = "@ + m),
                ),
            ),
            _ => (s, CaptureActionView::Ignore),
        },
        Phase::Listening | Phase::Delivered => match e {
            CaptureEventView::AcceptFailed(m) => (
                s,
                CaptureActionView::Report(
                    AuthErrorsView::AcceptError("failed to accept connection; err = "@ + m),
                ),
            ),
            CaptureEventView::ReadFailed(m) => (
                s,
                CaptureActionView::Report(
                    AuthErrorsView::SocketReadError("failed to read from socket; err = "@ + m),
                ),
            ),
            CaptureEventView::Received(bytes) => match parsed(bytes) {
                Ok(info) => if s.phase == Phase::Listening {
                    (
                        CaptureView { phase: Phase::Delivered, slot: Some(info) },
                        CaptureActionView::Wake,
                    )
                } else {
                    (s, CaptureActionView::Dropped)
                },
                Err(err) => (s, CaptureActionView::Report(err)),
            },
            CaptureEventView::Awaited => if s.phase == Phase::Delivered {
                (
                    CaptureView { phase: Phase::Terminated, slot: None },
                    CaptureActionView::Finish(classified(s.slot->0)),
                )
            } else {
                (s, CaptureActionView::Pending)
            },
            _ => (s, CaptureActionView::Ignore),
        },
        _ => (s, CaptureActionView::Ignore),
    }
}

/// The listener's state after a run of events.
pub open spec fn capture_run(s: CaptureView, events: Seq<CaptureEventView>) -> CaptureView
    decreases events.len(),
{
    if events.len() == 0 {
        s
    } else {
        capture_step(capture_run(s, events.drop_last()), events.last()).0
    }
}

/// What is done on the event of index `i` of a run.
pub open spec fn action_at(s: CaptureView, events: Seq<CaptureEventView>, i: int)
    -> CaptureActionView {
    capture_step(capture_run(s, events.take(i)), events[i]).1
}

/// How many results a run places in the slot.
pub open spec fn placed(s: CaptureView, events: Seq<CaptureEventView>) -> nat
    decreases events.len(),
{
    if events.len() == 0 {
        0
    } else {
        placed(s, events.drop_last()) + (if action_at(s, events, events.len() - 1)
            is Wake {
            1nat
        } else {
            0nat
        })
    }
}

/// How many results a run hands to the caller.
pub open spec fn handed_out(s: CaptureView, events: Seq<CaptureEventView>) -> nat
    decreases events.len(),
{
    if events.len() == 0 {
        0
    } else {
        handed_out(s, events.drop_last()) + (if action_at(s, events, events.len() - 1)
            is Finish {
            1nat
        } else {
            0nat
        })
    }
}

/// The requests of several connections as events, in the order in which
/// they reach the slot.
pub open spec fn received(requests: Seq<Seq<u8>>) -> Seq<CaptureEventView> {
    Seq::new(requests.len(), |i: int| CaptureEventView::Received(requests[i]))
}

/// Whether the listener may pass from one phase to another in one step:
/// from binding to listening or to failure, from listening to delivered,
/// from delivered to terminated.
pub open spec fn follows(from: Phase, to: Phase) -> bool {
    ||| from == Phase::Binding && to == Phase::Listening
    ||| from == Phase::Binding && to == Phase::Failed
    ||| from == Phase::Listening && to == Phase::Delivered
    ||| from == Phase::Delivered && to == Phase::Terminated
}

/// One event leaves the phase as it is or moves it along one of the ways
/// that `follows` names; only a failure to bind fails the listener, and a
/// failure of one connection changes nothing.
pub proof fn lemma_capture_moves(s: CaptureView, e: CaptureEventView)
    ensures
        capture_step(s, e).0.phase == s.phase || follows(s.phase, capture_step(s, e).0.phase),
        capture_step(s, e).1 is Fail <==> s.phase == Phase::Binding && e is BindFailed,
        capture_step(s, e).1 is Report ==> capture_step(s, e).0 == s,
        capture_step(s, e).1 is Wake <==> (e matches CaptureEventView::Received(bytes) && parsed(
            bytes,
        ) is Ok && s.phase == Phase::Listening),
        capture_step(s, e).1 is Finish <==> s.phase == Phase::Delivered && e is Awaited,
{
}

/// The slot stays in step with the phase over every event.
pub proof fn lemma_step_keeps_wf(s: CaptureView, e: CaptureEventView)
    requires
        s.wf(),
    ensures
        capture_step(s, e).0.wf(),
{
}

/// Whatever the events and wherever the run starts, at most one result is
/// placed in the slot and at most one is handed to the caller; a listener
/// that has handed out its result, or failed to bind, does neither again.
pub proof fn lemma_at_most_one_delivery(s: CaptureView, events: Seq<CaptureEventView>)
    ensures
        placed(s, events) <= 1,
        handed_out(s, events) <= 1,
        s.phase == Phase::Delivered ==> placed(s, events) == 0,
        s.phase == Phase::Terminated || s.phase == Phase::Failed ==> placed(s, events) == 0
            && handed_out(s, events) == 0,
        placed(s, events) == 1 ==> capture_run(s, events).phase == Phase::Delivered
            || capture_run(s, events).phase == Phase::Terminated,
        handed_out(s, events) == 1 ==> capture_run(s, events).phase == Phase::Terminated,
        s.phase == Phase::Delivered ==> capture_run(s, events).phase == Phase::Delivered
            || capture_run(s, events).phase == Phase::Terminated,
        s.phase == Phase::Terminated || s.phase == Phase::Failed ==> capture_run(s, events)
            == s,
        capture_run(s, events).phase == Phase::Binding || capture_run(s, events).phase
            == Phase::Listening ==> placed(s, events) == 0,
        capture_run(s, events).phase != Phase::Terminated ==> handed_out(s, events) == 0,
    decreases events.len(),
{
    if events.len() > 0 {
        let before = events.drop_last();
        lemma_at_most_one_delivery(s, before);
        assert(events.take(events.len() - 1) =~= before);
    }
}

/// Where every one of several connections brings a request that parses,
/// the first to reach the slot is placed and all others are dropped without
/// a failure; the caller is then handed the first one's result, classified.
pub proof fn lemma_first_result_wins(requests: Seq<Seq<u8>>)
    requires
        requests.len() >= 1,
        forall|i: int| 0 <= i < requests.len() ==> parsed(#[trigger] requests[i]) is Ok,
    ensures
        ({
            let start = CaptureView { phase: Phase::Listening, slot: None };
            let first = parsed(requests[0])->Ok_0;
            let full = CaptureView { phase: Phase::Delivered, slot: Some(first) };
            &&& action_at(start, received(requests), 0) == CaptureActionView::Wake
            &&& forall|i: int|
                1 <= i < requests.len() ==> #[trigger] action_at(start, received(requests), i)
                    == CaptureActionView::Dropped
            &&& capture_run(start, received(requests)) == full
            &&& placed(start, received(requests)) == 1
            &&& capture_step(full, CaptureEventView::Awaited) == (
                CaptureView { phase: Phase::Terminated, slot: None },
                CaptureActionView::Finish(classified(first)),
            )
        }),
    decreases requests.len(),
{
    let start = CaptureView { phase: Phase::Listening, slot: None };
    let events = received(requests);
    let first = parsed(requests[0])->Ok_0;
    let full = CaptureView { phase: Phase::Delivered, slot: Some(first) };
    assert(events.take(0) =~= Seq::<CaptureEventView>::empty());
    assert(capture_run(start, events.take(0)) == start);
    if requests.len() == 1 {
        assert(events.drop_last() =~= Seq::<CaptureEventView>::empty());
        assert(capture_run(start, events.drop_last()) == start);
        assert(events.take(events.len() - 1) =~= events.drop_last());
        assert(placed(start, events.drop_last()) == 0);
    } else {
        let fewer = requests.drop_last();
        lemma_first_result_wins(fewer);
        assert(received(fewer) =~= events.drop_last());
        assert(events.take(events.len() - 1) =~= events.drop_last());
        assert(fewer[0] == requests[0]);
        assert forall|i: int| 1 <= i < requests.len() implies #[trigger] action_at(
            start,
            events,
            i,
        ) == CaptureActionView::Dropped by {
            if i < requests.len() - 1 {
                assert(events.take(i) =~= received(fewer).take(i));
                assert(action_at(start, received(fewer), i) == CaptureActionView::Dropped);
            } else {
                assert(events.take(i) =~= received(fewer));
            }
        }
        assert(events.take(0) =~= received(fewer).take(0));
    }
}

/// What the caller gets for a captured result.
pub fn classify(info: OuathInfo) -> (result: Result<OuathInfo, AuthErrors>)
    ensures
        match result {
            Ok(i) => classified(info@) == Ok::<AuthorizationResult, AuthErrorsView>(i@),
            Err(e) => classified(info@) == Err::<AuthorizationResult, AuthErrorsView>(e@),
        },
{
    let has_error = match &info.error {
        Some(e) => !e.as_str().is_empty(),
        None => false,
    };
    let has_words = match &info.error_description {
        Some(d) => !d.as_str().is_empty(),
        None => false,
    };
    if has_error && has_words {
        match info.error_description {
            Some(d) => Err(AuthErrors::AuthenticationFailure(d)),
            None => Ok(info),
        }
    } else {
        Ok(info)
    }
}

/// The address that the listener binds.
pub fn bind_address(port: u16) -> (address: String)
    ensures
        address@ == loopback_address(port),
{
    let mut address = String::from_str("127.0.0.1:");
    push_decimal(&mut address, port as u64);
    address
}

impl View for CaptureServer {
    type V = CaptureView;

    open spec fn view(&self) -> CaptureView {
        match self {
            CaptureServer::Binding => CaptureView { phase: Phase::Binding, slot: None },
            CaptureServer::Listening => CaptureView { phase: Phase::Listening, slot: None },
            CaptureServer::Delivered(info) => CaptureView {
                phase: Phase::Delivered,
                slot: Some(info@),
            },
            CaptureServer::Terminated => CaptureView { phase: Phase::Terminated, slot: None },
            CaptureServer::Failed => CaptureView { phase: Phase::Failed, slot: None },
        }
    }
}

impl CaptureServer {
    /// A listener that has yet to bind its port.
    pub fn new() -> (server: CaptureServer)
        ensures
            server@ == (CaptureView { phase: Phase::Binding, slot: None }),
    {
        CaptureServer::Binding
    }

    /// Where the listener stands.
    pub fn phase(&self) -> (phase: Phase)
        ensures
            phase == self@.phase,
            self@.wf(),
    {
        match self {
            CaptureServer::Binding => Phase::Binding,
            CaptureServer::Listening => Phase::Listening,
            CaptureServer::Delivered(_) => Phase::Delivered,
            CaptureServer::Terminated => Phase::Terminated,
            CaptureServer::Failed => Phase::Failed,
        }
    }

    /// Takes an event, moves to the next state and says what is to be done.
    pub fn step(&mut self, event: CaptureEvent) -> (action: CaptureAction)
        ensures
            (final(self)@, action@) == capture_step(old(self)@, event@),
            final(self)@.wf(),
    {
        let phase = self.phase();
        match phase {
            Phase::Binding => match event {
                CaptureEvent::Bound => {
                    *self = CaptureServer::Listening;
                    CaptureAction::Listen
                },
                CaptureEvent::BindFailed(m) => {
                    *self = CaptureServer::Failed;
                    CaptureAction::Fail(
                        AuthErrors::BindError(joined("failed to bind listener; err = ", m.as_str())),
                    )
                },
                _ => CaptureAction::Ignore,
            },
            Phase::Listening | Phase::Delivered => match event {
                CaptureEvent::AcceptFailed(m) => CaptureAction::Report(
                    AuthErrors::AcceptError(
                        joined("failed to accept connection; err = ", m.as_str()),
                    ),
                ),
                CaptureEvent::ReadFailed(m) => CaptureAction::Report(
                    AuthErrors::SocketReadError(
                        joined("failed to read from socket; err = ", m.as_str()),
                    ),
                ),
                CaptureEvent::Received(bytes) => match parse_oauth(bytes.as_slice()) {
                    Ok(info) => {
                        if phase == Phase::Listening {
                            *self = CaptureServer::Delivered(info);
                            CaptureAction::Wake
                        } else {
                            CaptureAction::Dropped
                        }
                    },
                    Err(err) => CaptureAction::Report(err),
                },
                CaptureEvent::Awaited => {
                    if phase == Phase::Delivered {
                        let mut held = CaptureServer::Terminated;
                        core::mem::swap(self, &mut held);
                        match held {
                            CaptureServer::Delivered(info) => CaptureAction::Finish(classify(info)),
                            _ => CaptureAction::Pending,
                        }
                    } else {
                        CaptureAction::Pending
                    }
                },
                _ => CaptureAction::Ignore,
            },
            _ => CaptureAction::Ignore,
        }
    }

    /// Cancels the listener where the caller gives up: whatever lies in the
    /// slot is dropped.
    pub fn cancel(&mut self)
        ensures
            final(self)@ == (CaptureView { phase: Phase::Terminated, slot: None }),
    {
        *self = CaptureServer::Terminated;
    }
}

} // verus!
