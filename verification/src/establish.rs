//! Endpoint establishment: the decisions that turn two endpoint descriptors into
//! two live connections, or into a clean failure.
//!
//! The WebSocket side is always brought up first, so that a failure to reach a
//! TCP destination can be reported to the WebSocket peer with a close frame.
//! The caller performs each [`EstablishAction`] and reports what happened as an
//! [`EstablishEvent`].

use crate::endpoint::{Endpoint, TcpOrDestination};
use crate::message::{unreachable_frame, CloseFrame, CloseFrameView, CLOSE_CODE_ERROR};
use vstd::prelude::*;

verus! {

/// Where establishment stands. `E` is the caller's transport error.
#[derive(Debug, PartialEq, Eq)]
pub enum EstablishPhase<E> {
    /// Server-side WebSocket handshake over the accepted connection.
    Handshaking,
    /// Client-side WebSocket handshake with the destination URL.
    DialingWebSocket,
    /// The WebSocket dial failed; the accepted TCP connection is being shut down.
    ReleasingTcp(E),
    /// The WebSocket side is live; the TCP destination is being dialed.
    DialingTcp,
    /// The TCP dial failed; the error close frame is being sent.
    Notifying(E),
    /// The close frame went out; incoming messages are discarded until the peer
    /// closes.
    Draining(E),
    /// Both connections are live.
    Established,
    /// Establishment failed and its error was handed out.
    Failed,
}

/// What the caller reports back after performing an action.
#[derive(Debug)]
pub enum EstablishEvent<E> {
    /// The WebSocket handshake succeeded.
    WebSocketReady,
    /// The WebSocket handshake failed.
    WebSocketFailed(E),
    /// The shutdown of the accepted TCP connection returned, with whatever result.
    TcpReleased,
    /// The TCP destination was reached.
    TcpConnected,
    /// The TCP destination could not be reached.
    TcpFailed(E),
    /// The attempt to send the close frame returned, with whatever result.
    CloseSent,
    /// The WebSocket stream has ended.
    Drained,
}

/// What the caller has to do next.
#[derive(Debug, PartialEq, Eq)]
pub enum EstablishAction<E> {
    /// Perform the server-side WebSocket handshake over the accepted connection.
    AcceptWebSocket,
    /// Perform the client-side WebSocket handshake with this URL.
    DialWebSocket(String),
    /// Shut down the accepted TCP connection.
    ReleaseTcp,
    /// Connect to this TCP address.
    DialTcp(String),
    /// Send this close frame on the live WebSocket connection.
    SendClose(CloseFrame),
    /// Discard incoming WebSocket messages until the stream ends.
    Drain,
    /// Both sides are live: start relaying.
    Relay,
    /// Give up and report this error.
    Fail(E),
}

/// Mathematical value of an [`EstablishAction`].
pub enum EstablishActionView<E> {
    AcceptWebSocket,
    DialWebSocket(Seq<char>),
    ReleaseTcp,
    DialTcp(Seq<char>),
    SendClose(CloseFrameView),
    Drain,
    Relay,
    Fail(E),
}

impl<E> View for EstablishAction<E> {
    type V = EstablishActionView<E>;

    open spec fn view(&self) -> EstablishActionView<E> {
        match self {
            EstablishAction::AcceptWebSocket => EstablishActionView::AcceptWebSocket,
            EstablishAction::DialWebSocket(url) => EstablishActionView::DialWebSocket(url@),
            EstablishAction::ReleaseTcp => EstablishActionView::ReleaseTcp,
            EstablishAction::DialTcp(addr) => EstablishActionView::DialTcp(addr@),
            EstablishAction::SendClose(frame) => EstablishActionView::SendClose(frame@),
            EstablishAction::Drain => EstablishActionView::Drain,
            EstablishAction::Relay => EstablishActionView::Relay,
            EstablishAction::Fail(e) => EstablishActionView::Fail(*e),
        }
    }
}

/// Mathematical value of an [`Establishment`].
pub struct EstablishmentView<E> {
    pub phase: EstablishPhase<E>,
    /// The descriptor of the TCP side.
    pub tcp_role: Endpoint,
}

/// How establishment opens: the first state and the first action.
pub open spec fn establish_begin<E>(ws_role: Endpoint, tcp_role: Endpoint) -> (
    EstablishmentView<E>,
    EstablishActionView<E>,
) {
    match ws_role {
        Endpoint::Accepted => (
            EstablishmentView { phase: EstablishPhase::Handshaking, tcp_role },
            EstablishActionView::AcceptWebSocket,
        ),
        Endpoint::Destination(url) => (
            EstablishmentView { phase: EstablishPhase::DialingWebSocket, tcp_role },
            EstablishActionView::DialWebSocket(url),
        ),
    }
}

/// State `s` moved on to `phase`.
pub open spec fn establish_at<E>(s: EstablishmentView<E>, phase: EstablishPhase<E>) -> EstablishmentView<
    E,
> {
    EstablishmentView { phase, ..s }
}

/// The transition relation: the state and action that follow `event` in state
/// `s`, or `None` where the event does not answer the action that is pending.
pub open spec fn establish_step<E>(s: EstablishmentView<E>, event: EstablishEvent<E>) -> Option<
    (EstablishmentView<E>, EstablishActionView<E>),
> {
    match (s.phase, event) {
        (EstablishPhase::Handshaking, EstablishEvent::WebSocketReady)
        | (EstablishPhase::DialingWebSocket, EstablishEvent::WebSocketReady) => match s.tcp_role {
            Endpoint::Accepted => Some(
                (establish_at(s, EstablishPhase::Established), EstablishActionView::Relay),
            ),
            Endpoint::Destination(addr) => Some(
                (
                    establish_at(s, EstablishPhase::DialingTcp),
                    EstablishActionView::DialTcp(addr),
                ),
            ),
        },
        (EstablishPhase::Handshaking, EstablishEvent::WebSocketFailed(e)) => Some(
            (establish_at(s, EstablishPhase::Failed), EstablishActionView::Fail(e)),
        ),
        (EstablishPhase::DialingWebSocket, EstablishEvent::WebSocketFailed(e)) => match s.tcp_role {
            Endpoint::Accepted => Some(
                (
                    establish_at(s, EstablishPhase::ReleasingTcp(e)),
                    EstablishActionView::ReleaseTcp,
                ),
            ),
            Endpoint::Destination(_) => Some(
                (establish_at(s, EstablishPhase::Failed), EstablishActionView::Fail(e)),
            ),
        },
        (EstablishPhase::ReleasingTcp(e), EstablishEvent::TcpReleased) => Some(
            (establish_at(s, EstablishPhase::Failed), EstablishActionView::Fail(e)),
        ),
        (EstablishPhase::DialingTcp, EstablishEvent::TcpConnected) => Some(
            (establish_at(s, EstablishPhase::Established), EstablishActionView::Relay),
        ),
        (EstablishPhase::DialingTcp, EstablishEvent::TcpFailed(e)) => Some(
            (
                establish_at(s, EstablishPhase::Notifying(e)),
                EstablishActionView::SendClose(unreachable_frame()),
            ),
        ),
        (EstablishPhase::Notifying(e), EstablishEvent::CloseSent) => Some(
            (establish_at(s, EstablishPhase::Draining(e)), EstablishActionView::Drain),
        ),
        (EstablishPhase::Draining(e), EstablishEvent::Drained) => Some(
            (establish_at(s, EstablishPhase::Failed), EstablishActionView::Fail(e)),
        ),
        _ => None,
    }
}

/// The establishment of one session.
pub struct Establishment<E> {
    phase: EstablishPhase<E>,
    /// The TCP address to dial; `None` where the TCP connection is already held.
    tcp_destination: Option<String>,
}

impl<E> View for Establishment<E> {
    type V = EstablishmentView<E>;

    closed spec fn view(&self) -> EstablishmentView<E> {
        EstablishmentView {
            phase: self.phase,
            tcp_role: match self.tcp_destination {
                None => Endpoint::Accepted,
                Some(addr) => Endpoint::Destination(addr@),
            },
        }
    }
}

impl<E> Establishment<E> {
    /// Opens establishment for the descriptor of the WebSocket side and that of
    /// the TCP side, and says how to bring up the WebSocket side.
    pub fn begin<C>(ws_role: &TcpOrDestination<C>, tcp_role: &TcpOrDestination<C>) -> (opened: (
        Establishment<E>,
        EstablishAction<E>,
    ))
        ensures
            (opened.0@, opened.1@) == establish_begin::<E>(ws_role@, tcp_role@),
    {
        let tcp_destination = tcp_role.destination();
        match ws_role.destination() {
            None => (
                Establishment { phase: EstablishPhase::Handshaking, tcp_destination },
                EstablishAction::AcceptWebSocket,
            ),
            Some(url) => (
                Establishment { phase: EstablishPhase::DialingWebSocket, tcp_destination },
                EstablishAction::DialWebSocket(url),
            ),
        }
    }

    /// Whether establishment has ended, in a relay or in a failure.
    pub fn is_finished(&self) -> (finished: bool)
        ensures
            finished == (self@.phase is Established || self@.phase is Failed),
    {
        match &self.phase {
            EstablishPhase::Established | EstablishPhase::Failed => true,
            _ => false,
        }
    }

    /// Whether both connections are live.
    pub fn is_established(&self) -> (live: bool)
        ensures
            live == (self@.phase is Established),
    {
        match &self.phase {
            EstablishPhase::Established => true,
            _ => false,
        }
    }

    /// Takes the outcome of the pending action and says what to do next. An
    /// event that does not answer the pending action changes nothing and yields
    /// `None`.
    pub fn step(&mut self, event: EstablishEvent<E>) -> (action: Option<EstablishAction<E>>)
        ensures
            match establish_step(old(self)@, event) {
                Some((next, act)) => final(self)@ == next && action is Some && action->0@ == act,
                None => final(self)@ == old(self)@ && action is None,
            },
    {
        let mut phase = EstablishPhase::Failed;
        core::mem::swap(&mut self.phase, &mut phase);
        match (phase, event) {
            (EstablishPhase::Handshaking, EstablishEvent::WebSocketReady)
            | (EstablishPhase::DialingWebSocket, EstablishEvent::WebSocketReady) => {
                match &self.tcp_destination {
                    None => {
                        self.phase = EstablishPhase::Established;
                        Some(EstablishAction::Relay)
                    },
                    Some(addr) => {
                        let addr = addr.clone();
                        self.phase = EstablishPhase::DialingTcp;
                        Some(EstablishAction::DialTcp(addr))
                    },
                }
            },
            (EstablishPhase::Handshaking, EstablishEvent::WebSocketFailed(e)) => {
                self.phase = EstablishPhase::Failed;
                Some(EstablishAction::Fail(e))
            },
            (EstablishPhase::DialingWebSocket, EstablishEvent::WebSocketFailed(e)) => {
                if self.tcp_destination.is_none() {
                    self.phase = EstablishPhase::ReleasingTcp(e);
                    Some(EstablishAction::ReleaseTcp)
                } else {
                    self.phase = EstablishPhase::Failed;
                    Some(EstablishAction::Fail(e))
                }
            },
            (EstablishPhase::ReleasingTcp(e), EstablishEvent::TcpReleased) => {
                self.phase = EstablishPhase::Failed;
                Some(EstablishAction::Fail(e))
            },
            (EstablishPhase::DialingTcp, EstablishEvent::TcpConnected) => {
                self.phase = EstablishPhase::Established;
                Some(EstablishAction::Relay)
            },
            (EstablishPhase::DialingTcp, EstablishEvent::TcpFailed(e)) => {
                self.phase = EstablishPhase::Notifying(e);
                Some(EstablishAction::SendClose(CloseFrame::destination_unreachable()))
            },
            (EstablishPhase::Notifying(e), EstablishEvent::CloseSent) => {
                self.phase = EstablishPhase::Draining(e);
                Some(EstablishAction::Drain)
            },
            (EstablishPhase::Draining(e), EstablishEvent::Drained) => {
                self.phase = EstablishPhase::Failed;
                Some(EstablishAction::Fail(e))
            },
            (unchanged, _) => {
                self.phase = unchanged;
                None
            },
        }
    }
}


/// The state after the first `n` of `events`, starting in `s`; `None` where one
/// of them did not answer the pending action.
pub open spec fn establish_reached<E>(
    s: EstablishmentView<E>,
    events: Seq<EstablishEvent<E>>,
    n: nat,
) -> Option<EstablishmentView<E>>
    decreases n,
{
    if n == 0 {
        Some(s)
    } else if n > events.len() {
        None
    } else {
        match establish_reached(s, events, (n - 1) as nat) {
            Some(before) => match establish_step(before, events[n - 1]) {
                Some((next, _)) => Some(next),
                None => None,
            },
            None => None,
        }
    }
}

/// The action with which establishment answers event `i` of a run that starts
/// in `s`.
pub open spec fn establish_output<E>(
    s: EstablishmentView<E>,
    events: Seq<EstablishEvent<E>>,
    i: int,
) -> Option<EstablishActionView<E>> {
    if 0 <= i < events.len() {
        match establish_reached(s, events, i as nat) {
            Some(before) => match establish_step(before, events[i]) {
                Some((_, act)) => Some(act),
                None => None,
            },
            None => None,
        }
    } else {
        None
    }
}

/// The transport error that an event reports, if it reports one.
pub open spec fn failure_of<E>(event: EstablishEvent<E>) -> Option<E> {
    match event {
        EstablishEvent::WebSocketFailed(e) => Some(e),
        EstablishEvent::TcpFailed(e) => Some(e),
        _ => None,
    }
}

/// The first transport error among the first `n` events, if there is one.
pub open spec fn first_failure<E>(events: Seq<EstablishEvent<E>>, n: nat) -> Option<E>
    decreases n,
{
    if n == 0 || n > events.len() {
        None
    } else {
        match first_failure(events, (n - 1) as nat) {
            Some(e) => Some(e),
            None => failure_of(events[n - 1]),
        }
    }
}

/// The error that establishment holds while it cleans up, if it holds one.
pub open spec fn pending_error<E>(phase: EstablishPhase<E>) -> Option<E> {
    match phase {
        EstablishPhase::ReleasingTcp(e) => Some(e),
        EstablishPhase::Notifying(e) => Some(e),
        EstablishPhase::Draining(e) => Some(e),
        _ => None,
    }
}

/// Whether establishment has seen no failure yet.
pub open spec fn unfailed<E>(phase: EstablishPhase<E>) -> bool {
    phase is Handshaking || phase is DialingWebSocket || phase is DialingTcp
        || phase is Established
}

/// While establishment is under way no failure has been reported, and while it
/// cleans up the error it holds is the first one that was reported.
proof fn lemma_establish_tracks_first_failure<E>(
    s: EstablishmentView<E>,
    events: Seq<EstablishEvent<E>>,
    n: nat,
)
    requires
        unfailed(s.phase),
        establish_reached(s, events, n) is Some,
    ensures
        n <= events.len(),
        n > 0 ==> establish_reached(s, events, (n - 1) as nat) is Some,
        unfailed(establish_reached(s, events, n)->0.phase) ==> first_failure(events, n) is None,
        pending_error(establish_reached(s, events, n)->0.phase) is Some ==> first_failure(
            events,
            n,
        ) == pending_error(establish_reached(s, events, n)->0.phase),
    decreases n,
{
    if n > 0 {
        lemma_establish_tracks_first_failure(s, events, (n - 1) as nat);
    }
}

/// Establishment fails with the first transport error that was reported to it,
/// whatever cleaning up came in between.
pub proof fn law_establish_fails_with_first_error<E>(
    s: EstablishmentView<E>,
    events: Seq<EstablishEvent<E>>,
    i: int,
    e: E,
)
    requires
        unfailed(s.phase),
        establish_output(s, events, i) == Some(EstablishActionView::Fail(e)),
    ensures
        first_failure(events, (i + 1) as nat) == Some(e),
{
    lemma_establish_tracks_first_failure(s, events, i as nat);
}

/// The relay is started only when no transport error was reported.
pub proof fn law_establish_relays_only_unfailed<E>(
    s: EstablishmentView<E>,
    events: Seq<EstablishEvent<E>>,
    i: int,
)
    requires
        unfailed(s.phase),
        establish_output(s, events, i) == Some(EstablishActionView::<E>::Relay),
    ensures
        first_failure(events, (i + 1) as nat) is None,
{
    lemma_establish_tracks_first_failure(s, events, i as nat);
}

/// The WebSocket side comes first: whatever the descriptors, the first action
/// brings up the WebSocket side, and the TCP destination is dialed only in
/// answer to a WebSocket side that is live.
pub proof fn law_establish_websocket_first<E>(
    ws_role: Endpoint,
    tcp_role: Endpoint,
    s: EstablishmentView<E>,
    event: EstablishEvent<E>,
)
    ensures
        establish_begin::<E>(ws_role, tcp_role).1 is AcceptWebSocket || establish_begin::<E>(
            ws_role,
            tcp_role,
        ).1 is DialWebSocket,
        (establish_step(s, event) matches Some((_, act)) && act is DialTcp) ==> event
            is WebSocketReady,
{
}

/// When the TCP destination cannot be reached, the WebSocket peer is sent a
/// close frame with the error code, its remaining messages are discarded until
/// it closes, and establishment then fails with the dial error. Neither the
/// outcome of sending the frame nor anything else can turn this into a relay.
pub proof fn law_establish_reports_unreachable_destination<E>(
    s: EstablishmentView<E>,
    events: Seq<EstablishEvent<E>>,
    e: E,
)
    requires
        s.phase is DialingTcp,
        events == seq![
            EstablishEvent::TcpFailed(e),
            EstablishEvent::CloseSent,
            EstablishEvent::Drained,
        ],
    ensures
        establish_output(s, events, 0) == Some(
            EstablishActionView::<E>::SendClose(unreachable_frame()),
        ),
        unreachable_frame().code == CLOSE_CODE_ERROR,
        establish_output(s, events, 1) == Some(EstablishActionView::<E>::Drain),
        establish_output(s, events, 2) == Some(EstablishActionView::Fail(e)),
        establish_reached(s, events, 3) matches Some(last) && last.phase is Failed,
{
    reveal_with_fuel(establish_reached, 4);
}

/// When dialing the WebSocket destination fails while an accepted TCP
/// connection is held, that connection is shut down before establishment fails
/// with the dial error; when none is held, it fails at once.
pub proof fn law_establish_releases_accepted_connection<E>(
    s: EstablishmentView<E>,
    events: Seq<EstablishEvent<E>>,
    e: E,
)
    requires
        s.phase is DialingWebSocket,
        events.len() >= 2,
        events[0] == EstablishEvent::WebSocketFailed(e),
        events[1] == EstablishEvent::<E>::TcpReleased,
    ensures
        s.tcp_role is Accepted ==> establish_output(s, events, 0) == Some(
            EstablishActionView::<E>::ReleaseTcp,
        ) && establish_output(s, events, 1) == Some(EstablishActionView::Fail(e)),
        s.tcp_role is Destination ==> establish_output(s, events, 0) == Some(
            EstablishActionView::Fail(e),
        ),
{
    reveal_with_fuel(establish_reached, 3);
}

/// Once establishment has handed out its result, relay or failure, it takes
/// no further event.
pub proof fn law_establish_is_final<E>(s: EstablishmentView<E>, event: EstablishEvent<E>)
    requires
        s.phase is Established || s.phase is Failed,
    ensures
        establish_step(s, event) is None,
{
}

} // verus!
