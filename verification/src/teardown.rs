//! Session teardown: what happens once both pumps have come to an end.
//!
//! Teardown waits for both pumps. If either of them faulted, the session is
//! abandoned and its connections are left to be dropped. Otherwise the halves
//! of each connection are put together again and each connection is shut down,
//! once: the TCP connection first, then the WebSocket connection. A failing
//! shutdown is the caller's to log; it never keeps the other connection open.

use vstd::prelude::*;

verus! {

/// How a pump's task came to an end.
#[derive(Clone, Copy, Debug, PartialEq, Eq, Structural)]
pub enum PumpExit {
    /// The pump returned the halves it owned.
    Returned,
    /// The task ended abnormally and the halves are lost.
    Faulted,
}

/// Where teardown stands.
#[derive(Clone, Copy, Debug, PartialEq, Eq, Structural)]
pub enum TeardownPhase {
    /// Waiting for both pumps.
    Joining,
    /// The TCP connection is being shut down.
    ClosingTcp,
    /// The WebSocket connection is being shut down.
    ClosingWebSocket,
    /// Both connections have been shut down.
    Closed,
    /// A pump faulted; nothing was shut down.
    Abandoned,
}

/// What the caller reports back.
#[derive(Clone, Copy, Debug, PartialEq, Eq, Structural)]
pub enum TeardownEvent {
    /// Both pump tasks have ended.
    Joined { ws_to_tcp: PumpExit, tcp_to_ws: PumpExit },
    /// The shutdown of the TCP connection returned; the flag says whether it
    /// succeeded.
    TcpClosed(bool),
    /// The shutdown of the WebSocket connection returned; the flag says whether
    /// it succeeded.
    WebSocketClosed(bool),
}

/// What the caller has to do next.
#[derive(Clone, Copy, Debug, PartialEq, Eq, Structural)]
pub enum TeardownAction {
    /// Reunite the TCP halves and shut the connection down.
    ShutdownTcp,
    /// Reunite the WebSocket halves and shut the connection down.
    ShutdownWebSocket,
    /// Nothing is left to do.
    Done,
    /// Give the session up without closing anything.
    Abandon,
}

/// The transition relation: the phase and action that follow `event` in phase
/// `s`, or `None` where the event cannot occur in that phase.
pub open spec fn teardown_step(s: TeardownPhase, event: TeardownEvent) -> Option<
    (TeardownPhase, TeardownAction),
> {
    match (s, event) {
        (TeardownPhase::Joining, TeardownEvent::Joined { ws_to_tcp, tcp_to_ws }) => if ws_to_tcp
            == PumpExit::Returned && tcp_to_ws == PumpExit::Returned {
            Some((TeardownPhase::ClosingTcp, TeardownAction::ShutdownTcp))
        } else {
            Some((TeardownPhase::Abandoned, TeardownAction::Abandon))
        },
        (TeardownPhase::ClosingTcp, TeardownEvent::TcpClosed(_)) => Some(
            (TeardownPhase::ClosingWebSocket, TeardownAction::ShutdownWebSocket),
        ),
        (TeardownPhase::ClosingWebSocket, TeardownEvent::WebSocketClosed(_)) => Some(
            (TeardownPhase::Closed, TeardownAction::Done),
        ),
        _ => None,
    }
}

/// The teardown of one session.
pub struct Teardown {
    phase: TeardownPhase,
}

impl View for Teardown {
    type V = TeardownPhase;

    closed spec fn view(&self) -> TeardownPhase {
        self.phase
    }
}

impl Teardown {
    /// A teardown that is about to wait for both pumps.
    pub fn new() -> (teardown: Teardown)
        ensures
            teardown@ == TeardownPhase::Joining,
    {
        Teardown { phase: TeardownPhase::Joining }
    }

    /// Where teardown stands.
    pub fn phase(&self) -> (phase: TeardownPhase)
        ensures
            phase == self@,
    {
        self.phase
    }

    /// Takes what happened and says what to do next. An event that cannot occur
    /// in the current phase changes nothing and yields `None`.
    pub fn step(&mut self, event: TeardownEvent) -> (action: Option<TeardownAction>)
        ensures
            match teardown_step(old(self)@, event) {
                Some((next, act)) => final(self)@ == next && action == Some(act),
                None => final(self)@ == old(self)@ && action is None,
            },
    {
        match (self.phase, event) {
            (TeardownPhase::Joining, TeardownEvent::Joined { ws_to_tcp, tcp_to_ws }) => {
                match (ws_to_tcp, tcp_to_ws) {
                    (PumpExit::Returned, PumpExit::Returned) => {
                        self.phase = TeardownPhase::ClosingTcp;
                        Some(TeardownAction::ShutdownTcp)
                    },
                    _ => {
                        self.phase = TeardownPhase::Abandoned;
                        Some(TeardownAction::Abandon)
                    },
                }
            },
            (TeardownPhase::ClosingTcp, TeardownEvent::TcpClosed(_)) => {
                self.phase = TeardownPhase::ClosingWebSocket;
                Some(TeardownAction::ShutdownWebSocket)
            },
            (TeardownPhase::ClosingWebSocket, TeardownEvent::WebSocketClosed(_)) => {
                self.phase = TeardownPhase::Closed;
                Some(TeardownAction::Done)
            },
            _ => None,
        }
    }
}

/// The phase after the first `n` of `events`, starting in `s`; `None` where one
/// of them could not occur.
pub open spec fn teardown_reached(s: TeardownPhase, events: Seq<TeardownEvent>, n: nat) -> Option<
    TeardownPhase,
>
    decreases n,
{
    if n == 0 {
        Some(s)
    } else if n > events.len() {
        None
    } else {
        match teardown_reached(s, events, (n - 1) as nat) {
            Some(before) => match teardown_step(before, events[n - 1]) {
                Some((next, _)) => Some(next),
                None => None,
            },
            None => None,
        }
    }
}

/// The action with which teardown answers event `i` of a run that starts in `s`.
pub open spec fn teardown_output(s: TeardownPhase, events: Seq<TeardownEvent>, i: int) -> Option<
    TeardownAction,
> {
    if 0 <= i < events.len() {
        match teardown_reached(s, events, i as nat) {
            Some(before) => match teardown_step(before, events[i]) {
                Some((_, act)) => Some(act),
                None => None,
            },
            None => None,
        }
    } else {
        None
    }
}

/// How often `action` was asked for in answer to the first `n` events.
pub open spec fn teardown_count(
    s: TeardownPhase,
    events: Seq<TeardownEvent>,
    n: nat,
    action: TeardownAction,
) -> nat
    decreases n,
{
    if n == 0 {
        0
    } else {
        let earlier = teardown_count(s, events, (n - 1) as nat, action);
        if teardown_output(s, events, n - 1) == Some(action) {
            earlier + 1
        } else {
            earlier
        }
    }
}

/// How often a connection has been shut down by the time teardown stands in
/// `phase`, the TCP connection first.
pub open spec fn shutdowns_by(phase: TeardownPhase) -> (nat, nat) {
    match phase {
        TeardownPhase::Joining | TeardownPhase::Abandoned => (0, 0),
        TeardownPhase::ClosingTcp => (1, 0),
        TeardownPhase::ClosingWebSocket | TeardownPhase::Closed => (1, 1),
    }
}

/// In every run of a teardown, the number of shutdowns asked for is the one
/// that belongs to the phase reached: never more than one for a connection.
pub proof fn law_teardown_counts_shutdowns(events: Seq<TeardownEvent>, n: nat)
    requires
        teardown_reached(TeardownPhase::Joining, events, n) is Some,
    ensures
        ({
            let phase = teardown_reached(TeardownPhase::Joining, events, n)->0;
            &&& teardown_count(TeardownPhase::Joining, events, n, TeardownAction::ShutdownTcp)
                == shutdowns_by(phase).0
            &&& teardown_count(
                TeardownPhase::Joining,
                events,
                n,
                TeardownAction::ShutdownWebSocket,
            ) == shutdowns_by(phase).1
        }),
    decreases n,
{
    if n > 0 {
        law_teardown_counts_shutdowns(events, (n - 1) as nat);
    }
}

/// After a session whose pumps both returned, whatever the two shutdowns
/// report, each connection is shut down exactly once: the TCP connection, then
/// the WebSocket connection, then nothing more.
pub proof fn law_teardown_closes_each_once(events: Seq<TeardownEvent>, tcp_ok: bool, ws_ok: bool)
    requires
        events == seq![
            TeardownEvent::Joined { ws_to_tcp: PumpExit::Returned, tcp_to_ws: PumpExit::Returned },
            TeardownEvent::TcpClosed(tcp_ok),
            TeardownEvent::WebSocketClosed(ws_ok),
        ],
    ensures
        teardown_output(TeardownPhase::Joining, events, 0) == Some(TeardownAction::ShutdownTcp),
        teardown_output(TeardownPhase::Joining, events, 1) == Some(
            TeardownAction::ShutdownWebSocket,
        ),
        teardown_output(TeardownPhase::Joining, events, 2) == Some(TeardownAction::Done),
        teardown_reached(TeardownPhase::Joining, events, 3) == Some(TeardownPhase::Closed),
        teardown_count(TeardownPhase::Joining, events, 3, TeardownAction::ShutdownTcp) == 1,
        teardown_count(TeardownPhase::Joining, events, 3, TeardownAction::ShutdownWebSocket) == 1,
{
    reveal_with_fuel(teardown_reached, 4);
    law_teardown_counts_shutdowns(events, 3);
}

/// Once teardown is closed or abandoned, no event is taken: nothing is shut
/// down a second time.
pub proof fn law_teardown_is_final(s: TeardownPhase, event: TeardownEvent)
    requires
        s == TeardownPhase::Closed || s == TeardownPhase::Abandoned,
    ensures
        teardown_step(s, event) is None,
{
}

/// If either pump faulted, the session is abandoned and no shutdown is asked
/// for, then or later.
pub proof fn law_teardown_abandons_on_fault(
    events: Seq<TeardownEvent>,
    ws_to_tcp: PumpExit,
    tcp_to_ws: PumpExit,
    n: nat,
)
    requires
        ws_to_tcp == PumpExit::Faulted || tcp_to_ws == PumpExit::Faulted,
        events.len() > 0,
        events[0] == (TeardownEvent::Joined { ws_to_tcp, tcp_to_ws }),
    ensures
        teardown_output(TeardownPhase::Joining, events, 0) == Some(TeardownAction::Abandon),
        teardown_count(TeardownPhase::Joining, events, n, TeardownAction::ShutdownTcp) == 0,
        teardown_count(TeardownPhase::Joining, events, n, TeardownAction::ShutdownWebSocket) == 0,
    decreases n,
{
    if n > 0 {
        law_teardown_abandons_on_fault(events, ws_to_tcp, tcp_to_ws, (n - 1) as nat);
        if n >= 2 && teardown_output(TeardownPhase::Joining, events, n - 1) is Some {
            lemma_teardown_stays_abandoned(events, (n - 1) as nat);
        }
    }
}

/// A run whose first step abandons the session takes no second step.
proof fn lemma_teardown_stays_abandoned(events: Seq<TeardownEvent>, n: nat)
    requires
        n >= 1,
        teardown_reached(TeardownPhase::Joining, events, 1) == Some(TeardownPhase::Abandoned),
    ensures
        teardown_reached(TeardownPhase::Joining, events, n) is Some ==> n == 1,
    decreases n,
{
    if n > 1 {
        lemma_teardown_stays_abandoned(events, (n - 1) as nat);
    }
}

} // verus!
