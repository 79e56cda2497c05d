//! The two pumps of a session taken together, and the pair of one-shot stop
//! signals between them.
//!
//! Each pump runs on its own; the only thing that passes between them is a stop
//! signal in each direction. A pump raises its signal as it ends, and a pump
//! that waits for input takes its sibling's signal as soon as it is there. This
//! module starts the two pumps together, each with the sending end of its own
//! signal and the receiving end of its sibling's, and states what that
//! arrangement guarantees: a pump that is still relaying after its sibling has
//! finished always has the sibling's signal waiting for it.

use crate::pump_tcp::{
    tcp_to_ws_coherent, tcp_to_ws_start, tcp_to_ws_step, TcpToWsEventView, TcpToWsPhase,
    TcpToWsPump, TcpToWsTurn, TcpToWsView,
};
use crate::pump_ws::{
    ws_to_tcp_coherent, ws_to_tcp_start, ws_to_tcp_step, WsToTcpEventView, WsToTcpPhase,
    WsToTcpPump, WsToTcpTurn, WsToTcpView,
};
use crate::signal::StopSignal;
use tokio::sync::oneshot::Receiver;
use vstd::prelude::*;

verus! {

/// The two pumps of a session, ready to run, each with the receiving end on
/// which it waits for the other's stop signal.
pub struct Relay {
    pub ws_to_tcp: WsToTcpPump,
    /// Where the WebSocket-to-TCP pump waits for its sibling's stop signal.
    pub ws_to_tcp_stop: Receiver<bool>,
    pub tcp_to_ws: TcpToWsPump,
    /// Where the TCP-to-WebSocket pump waits for its sibling's stop signal.
    pub tcp_to_ws_stop: Receiver<bool>,
}

impl Relay {
    /// Starts both pumps of a session together and connects them by a stop
    /// signal in each direction.
    pub fn start() -> (relay: Relay)
        ensures
            relay.ws_to_tcp@ == ws_to_tcp_start(),
            relay.tcp_to_ws@ == tcp_to_ws_start(),
    {
        let (stop_from_ws, seen_by_tcp) = StopSignal::new();
        let (stop_from_tcp, seen_by_ws) = StopSignal::new();
        Relay {
            ws_to_tcp: WsToTcpPump::new(stop_from_ws),
            ws_to_tcp_stop: seen_by_ws,
            tcp_to_ws: TcpToWsPump::new(stop_from_tcp),
            tcp_to_ws_stop: seen_by_tcp,
        }
    }
}

/// Both pumps of a session, and which of the two stop signals has been taken.
pub struct SessionView {
    pub ws_to_tcp: WsToTcpView,
    pub tcp_to_ws: TcpToWsView,
    /// Whether the TCP-to-WebSocket pump has taken its sibling's signal.
    pub ws_stop_taken: bool,
    /// Whether the WebSocket-to-TCP pump has taken its sibling's signal.
    pub tcp_stop_taken: bool,
}

/// Something that happens to one of the two pumps, with the outcome of the
/// stop signal that the pump raises if it ends on it.
pub enum SessionEvent {
    WsToTcp(WsToTcpTurn),
    TcpToWs(TcpToWsTurn),
}

/// A session at the moment its pumps are started.
pub open spec fn session_start() -> SessionView {
    SessionView {
        ws_to_tcp: ws_to_tcp_start(),
        tcp_to_ws: tcp_to_ws_start(),
        ws_stop_taken: false,
        tcp_stop_taken: false,
    }
}

/// The session after `event`, or `None` where the event cannot happen. A pump
/// takes a stop signal only if one was delivered to it and it has not taken it
/// yet. A signal that a pump raises is dropped only if the sibling has finished:
/// until then the sibling holds the receiving end.
pub open spec fn session_step(s: SessionView, event: SessionEvent) -> Option<SessionView> {
    match event {
        SessionEvent::WsToTcp(turn) => {
            let stop_waits = s.tcp_to_ws.signal is Delivered && !s.tcp_stop_taken;
            match ws_to_tcp_step(s.ws_to_tcp, turn.0, turn.1) {
                Some((next, _)) => if turn.0 is StopRequested && !stop_waits {
                    None
                } else if next.signal is Dropped && s.tcp_to_ws.phase != TcpToWsPhase::Finished {
                    None
                } else {
                    Some(
                        SessionView {
                            ws_to_tcp: next,
                            tcp_stop_taken: s.tcp_stop_taken || turn.0 is StopRequested,
                            ..s
                        },
                    )
                },
                None => None,
            }
        },
        SessionEvent::TcpToWs(turn) => {
            let stop_waits = s.ws_to_tcp.signal is Delivered && !s.ws_stop_taken;
            match tcp_to_ws_step(s.tcp_to_ws, turn.0, turn.1) {
                Some((next, _)) => if turn.0 is StopRequested && !stop_waits {
                    None
                } else if next.signal is Dropped && s.ws_to_tcp.phase != WsToTcpPhase::Finished {
                    None
                } else {
                    Some(
                        SessionView {
                            tcp_to_ws: next,
                            ws_stop_taken: s.ws_stop_taken || turn.0 is StopRequested,
                            ..s
                        },
                    )
                },
                None => None,
            }
        },
    }
}

/// The session after the first `n` of `events`, starting in `s`; `None` where
/// one of them could not happen.
pub open spec fn session_reached(s: SessionView, events: Seq<SessionEvent>, n: nat) -> Option<
    SessionView,
>
    decreases n,
{
    if n == 0 {
        Some(s)
    } else if n > events.len() {
        None
    } else {
        match session_reached(s, events, (n - 1) as nat) {
            Some(before) => session_step(before, events[n - 1]),
            None => None,
        }
    }
}

/// The invariant of a session. Each pump's signal is pending exactly until the
/// pump has finished; a signal is dropped only if the sibling had finished; and
/// a pump that has taken its sibling's signal has finished.
pub open spec fn session_coherent(s: SessionView) -> bool {
    &&& ws_to_tcp_coherent(s.ws_to_tcp)
    &&& tcp_to_ws_coherent(s.tcp_to_ws)
    &&& s.ws_to_tcp.signal is Dropped ==> s.tcp_to_ws.phase == TcpToWsPhase::Finished
    &&& s.tcp_to_ws.signal is Dropped ==> s.ws_to_tcp.phase == WsToTcpPhase::Finished
    &&& s.ws_stop_taken ==> s.ws_to_tcp.signal is Delivered && s.tcp_to_ws.phase
        == TcpToWsPhase::Finished
    &&& s.tcp_stop_taken ==> s.tcp_to_ws.signal is Delivered && s.ws_to_tcp.phase
        == WsToTcpPhase::Finished
}

/// Every step of a session keeps it coherent.
pub proof fn law_session_step_keeps_coherence(s: SessionView, event: SessionEvent)
    requires
        session_coherent(s),
        session_step(s, event) is Some,
    ensures
        session_coherent(session_step(s, event)->0),
{
}

/// A session is coherent from its start on, whatever happens to its pumps and
/// in whatever order.
pub proof fn law_session_stays_coherent(events: Seq<SessionEvent>, n: nat)
    requires
        session_reached(session_start(), events, n) is Some,
    ensures
        session_coherent(session_reached(session_start(), events, n)->0),
    decreases n,
{
    if n > 0 {
        let before = session_reached(session_start(), events, (n - 1) as nat);
        assert(before is Some);
        law_session_stays_coherent(events, (n - 1) as nat);
        law_session_step_keeps_coherence(before->0, events[n - 1]);
    }
}

/// No pump is left relaying without notice: if one pump has finished while the
/// other has not, the stop signal of the first was delivered and waits for the
/// second, which takes it as soon as it waits for input again, and then
/// finishes at once.
pub proof fn law_session_sibling_is_notified(s: SessionView, delivered: bool)
    requires
        session_coherent(s),
    ensures
        s.ws_to_tcp.phase == WsToTcpPhase::Finished && s.tcp_to_ws.phase != TcpToWsPhase::Finished
            ==> s.ws_to_tcp.signal is Delivered && !s.ws_stop_taken,
        s.ws_to_tcp.phase == WsToTcpPhase::Finished && s.tcp_to_ws.phase == TcpToWsPhase::Reading
            ==> (session_step(
            s,
            SessionEvent::TcpToWs((TcpToWsEventView::StopRequested, delivered)),
        ) matches Some(after) && after.tcp_to_ws.phase == TcpToWsPhase::Finished),
        s.tcp_to_ws.phase == TcpToWsPhase::Finished && s.ws_to_tcp.phase != WsToTcpPhase::Finished
            ==> s.tcp_to_ws.signal is Delivered && !s.tcp_stop_taken,
        s.tcp_to_ws.phase == TcpToWsPhase::Finished && s.ws_to_tcp.phase
            == WsToTcpPhase::Receiving ==> (session_step(
            s,
            SessionEvent::WsToTcp((WsToTcpEventView::StopRequested, delivered)),
        ) matches Some(after) && after.ws_to_tcp.phase == WsToTcpPhase::Finished),
{
}

/// Raising a stop signal never waits for the sibling and never fails on its
/// account: whatever a pump can do when taken alone, other than take a stop
/// signal, it can do in the session, wherever the sibling stands and whether
/// or not the sibling is still there to be signalled, and doing it leaves the
/// sibling as it was.
pub proof fn law_session_signal_never_blocks(s: SessionView, event: SessionEvent)
    requires
        session_coherent(s),
        match event {
            SessionEvent::WsToTcp(turn) => {
                &&& !(turn.0 is StopRequested)
                &&& ws_to_tcp_step(s.ws_to_tcp, turn.0, turn.1) is Some
                &&& turn.1 || s.tcp_to_ws.phase == TcpToWsPhase::Finished
            },
            SessionEvent::TcpToWs(turn) => {
                &&& !(turn.0 is StopRequested)
                &&& tcp_to_ws_step(s.tcp_to_ws, turn.0, turn.1) is Some
                &&& turn.1 || s.ws_to_tcp.phase == WsToTcpPhase::Finished
            },
        },
    ensures
        session_step(s, event) is Some,
        event is WsToTcp ==> session_step(s, event)->0.tcp_to_ws == s.tcp_to_ws,
        event is TcpToWs ==> session_step(s, event)->0.ws_to_tcp == s.ws_to_tcp,
{
}

/// A stop signal is taken at most once: a pump that has taken its sibling's
/// signal takes no further event.
pub proof fn law_session_signal_is_taken_once(s: SessionView, event: SessionEvent)
    requires
        session_coherent(s),
    ensures
        s.tcp_stop_taken && event is WsToTcp ==> session_step(s, event) is None,
        s.ws_stop_taken && event is TcpToWs ==> session_step(s, event) is None,
{
}

} // verus!
