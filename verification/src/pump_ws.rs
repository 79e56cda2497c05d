//! The pump that moves data from the WebSocket connection to the TCP connection.
//!
//! The pump waits for the next WebSocket message or for its sibling's stop
//! signal, whichever comes first. Binary payloads are written to the TCP side
//! unchanged and in arrival order. The pump ends on the end of the stream, on a
//! read or write failure, or on the stop signal; as it ends it raises its own
//! stop signal, once, and does not care whether anybody still listens.

use crate::message::{CloseFrameView, WsMessage, WsMessageView};
use crate::signal::{sent, Signal, StopSignal};
use vstd::prelude::*;

verus! {

/// What the pump is waiting for.
#[derive(Clone, Copy, Debug, PartialEq, Eq, Structural)]
pub enum WsToTcpPhase {
    /// Waiting for the next message or the sibling's stop signal.
    Receiving,
    /// Waiting for a write to the TCP side to complete.
    Writing,
    /// The pump has stopped and raised its stop signal.
    Finished,
}

/// Mathematical value of a [`WsToTcpPump`].
pub struct WsToTcpView {
    pub phase: WsToTcpPhase,
    /// Whether the WebSocket peer has sent a close message.
    pub peer_closed: bool,
    /// What has become of the pump's own stop signal.
    pub signal: Signal,
}

/// What happened while the pump waited.
#[derive(Debug)]
pub enum WsToTcpEvent {
    /// A message arrived.
    Message(WsMessage),
    /// The WebSocket stream ended.
    EndOfStream,
    /// Reading from the WebSocket failed.
    ReadFailed,
    /// The pending write completed.
    Written,
    /// The pending write failed.
    WriteFailed,
    /// The sibling pump's stop signal arrived.
    StopRequested,
}

/// Mathematical value of a [`WsToTcpEvent`].
pub enum WsToTcpEventView {
    Message(WsMessageView),
    EndOfStream,
    ReadFailed,
    Written,
    WriteFailed,
    StopRequested,
}

impl View for WsToTcpEvent {
    type V = WsToTcpEventView;

    open spec fn view(&self) -> WsToTcpEventView {
        match self {
            WsToTcpEvent::Message(m) => WsToTcpEventView::Message(m@),
            WsToTcpEvent::EndOfStream => WsToTcpEventView::EndOfStream,
            WsToTcpEvent::ReadFailed => WsToTcpEventView::ReadFailed,
            WsToTcpEvent::Written => WsToTcpEventView::Written,
            WsToTcpEvent::WriteFailed => WsToTcpEventView::WriteFailed,
            WsToTcpEvent::StopRequested => WsToTcpEventView::StopRequested,
        }
    }
}

/// What the caller has to do next.
#[derive(Debug, PartialEq, Eq)]
pub enum WsToTcpAction {
    /// Wait for the next message or the sibling's stop signal.
    Receive,
    /// Write all of these bytes to the TCP side.
    Write(Vec<u8>),
    /// Return the TCP write half and the WebSocket read half.
    Finish,
}

/// Mathematical value of a [`WsToTcpAction`].
pub enum WsToTcpActionView {
    Receive,
    Write(Seq<u8>),
    Finish,
}

impl View for WsToTcpAction {
    type V = WsToTcpActionView;

    open spec fn view(&self) -> WsToTcpActionView {
        match self {
            WsToTcpAction::Receive => WsToTcpActionView::Receive,
            WsToTcpAction::Write(data) => WsToTcpActionView::Write(data@),
            WsToTcpAction::Finish => WsToTcpActionView::Finish,
        }
    }
}

/// The state in which the pump starts: receiving, with no close seen and its
/// signal pending.
pub open spec fn ws_to_tcp_start() -> WsToTcpView {
    WsToTcpView { phase: WsToTcpPhase::Receiving, peer_closed: false, signal: Signal::Pending }
}

/// The state of a pump that ends now, where `delivered` says whether its stop
/// signal finds the sibling's receiving end.
pub open spec fn ws_to_tcp_ended(s: WsToTcpView, delivered: bool) -> WsToTcpView {
    WsToTcpView { phase: WsToTcpPhase::Finished, signal: sent(delivered), ..s }
}

/// The transition relation: the state and action that follow `event` in state
/// `s`, or `None` where the event cannot occur in that state. Where the pump
/// ends, `delivered` says whether its stop signal finds the sibling's receiving
/// end; it bears on nothing else.
pub open spec fn ws_to_tcp_step(s: WsToTcpView, event: WsToTcpEventView, delivered: bool) -> Option<
    (WsToTcpView, WsToTcpActionView),
> {
    match (s.phase, event) {
        (WsToTcpPhase::Receiving, WsToTcpEventView::Message(WsMessageView::Binary(data))) => Some(
            (WsToTcpView { phase: WsToTcpPhase::Writing, ..s }, WsToTcpActionView::Write(data)),
        ),
        (WsToTcpPhase::Receiving, WsToTcpEventView::Message(WsMessageView::Close(_))) => Some(
            (WsToTcpView { peer_closed: true, ..s }, WsToTcpActionView::Receive),
        ),
        (WsToTcpPhase::Receiving, WsToTcpEventView::Message(WsMessageView::Other)) => Some(
            (s, WsToTcpActionView::Receive),
        ),
        (WsToTcpPhase::Receiving, WsToTcpEventView::EndOfStream)
        | (WsToTcpPhase::Receiving, WsToTcpEventView::ReadFailed)
        | (WsToTcpPhase::Receiving, WsToTcpEventView::StopRequested)
        | (WsToTcpPhase::Writing, WsToTcpEventView::WriteFailed) => Some(
            (ws_to_tcp_ended(s, delivered), WsToTcpActionView::Finish),
        ),
        (WsToTcpPhase::Writing, WsToTcpEventView::Written) => Some(
            (WsToTcpView { phase: WsToTcpPhase::Receiving, ..s }, WsToTcpActionView::Receive),
        ),
        _ => None,
    }
}

/// What holds of every pump: its signal is pending exactly until it has
/// finished.
pub open spec fn ws_to_tcp_coherent(s: WsToTcpView) -> bool {
    (s.phase == WsToTcpPhase::Finished) == !(s.signal is Pending)
}

/// The WebSocket-to-TCP pump of one session.
pub struct WsToTcpPump {
    /// Whether a write to the TCP side is pending.
    writing: bool,
    peer_closed: bool,
    /// The pump's own stop signal; once it is raised the pump has finished.
    stop: StopSignal,
}

impl View for WsToTcpPump {
    type V = WsToTcpView;

    closed spec fn view(&self) -> WsToTcpView {
        WsToTcpView {
            phase: if !(self.stop@ is Pending) {
                WsToTcpPhase::Finished
            } else if self.writing {
                WsToTcpPhase::Writing
            } else {
                WsToTcpPhase::Receiving
            },
            peer_closed: self.peer_closed,
            signal: self.stop@,
        }
    }
}

impl WsToTcpPump {
    /// A pump that will raise `stop` when it ends. With a pending signal it is
    /// about to wait for its first message, and the first thing to do is
    /// [`WsToTcpAction::Receive`]; with a signal that was raised before, it has
    /// finished before it began.
    pub fn new(stop: StopSignal) -> (pump: WsToTcpPump)
        ensures
            ws_to_tcp_coherent(pump@),
            pump@.signal == stop@,
            !pump@.peer_closed,
            stop@ is Pending ==> pump@ == ws_to_tcp_start(),
    {
        WsToTcpPump { writing: false, peer_closed: false, stop }
    }

    /// What the pump is waiting for.
    pub fn phase(&self) -> (phase: WsToTcpPhase)
        ensures
            phase == self@.phase,
            ws_to_tcp_coherent(self@),
    {
        match self.stop.state() {
            Signal::Pending => if self.writing {
                WsToTcpPhase::Writing
            } else {
                WsToTcpPhase::Receiving
            },
            _ => WsToTcpPhase::Finished,
        }
    }

    /// Whether the WebSocket peer has sent a close message.
    pub fn peer_closed(&self) -> (closed: bool)
        ensures
            closed == self@.peer_closed,
    {
        self.peer_closed
    }

    /// What has become of the pump's stop signal.
    pub fn signal(&self) -> (signal: Signal)
        ensures
            signal == self@.signal,
    {
        self.stop.state()
    }

    /// Takes what happened and says what to do next. Where this ends the pump,
    /// its stop signal is raised before the call returns, and the new state
    /// records whether the signal was delivered. An event that cannot occur in
    /// the current phase changes nothing and yields `None`.
    pub fn step(&mut self, event: WsToTcpEvent) -> (action: Option<WsToTcpAction>)
        ensures
            match ws_to_tcp_step(old(self)@, event@, final(self)@.signal is Delivered) {
                Some((next, act)) => final(self)@ == next && action is Some && action->0@ == act,
                None => final(self)@ == old(self)@ && action is None,
            },
    {
        match (self.phase(), event) {
            (WsToTcpPhase::Receiving, WsToTcpEvent::Message(WsMessage::Binary(data))) => {
                self.writing = true;
                Some(WsToTcpAction::Write(data))
            },
            (WsToTcpPhase::Receiving, WsToTcpEvent::Message(WsMessage::Close(_))) => {
                self.peer_closed = true;
                Some(WsToTcpAction::Receive)
            },
            (WsToTcpPhase::Receiving, WsToTcpEvent::Message(WsMessage::Other)) => Some(
                WsToTcpAction::Receive,
            ),
            (WsToTcpPhase::Receiving, WsToTcpEvent::EndOfStream)
            | (WsToTcpPhase::Receiving, WsToTcpEvent::ReadFailed)
            | (WsToTcpPhase::Receiving, WsToTcpEvent::StopRequested)
            | (WsToTcpPhase::Writing, WsToTcpEvent::WriteFailed) => {
                self.stop.raise();
                Some(WsToTcpAction::Finish)
            },
            (WsToTcpPhase::Writing, WsToTcpEvent::Written) => {
                self.writing = false;
                Some(WsToTcpAction::Receive)
            },
            _ => None,
        }
    }
}

/// One turn of a run: what happened, and whether a stop signal raised in
/// answer to it would find the sibling's receiving end.
pub type WsToTcpTurn = (WsToTcpEventView, bool);

/// The state after the first `n` of `turns`, starting in `s`; `None` where one
/// of the events could not occur.
pub open spec fn ws_to_tcp_reached(s: WsToTcpView, turns: Seq<WsToTcpTurn>, n: nat) -> Option<
    WsToTcpView,
>
    decreases n,
{
    if n == 0 {
        Some(s)
    } else if n > turns.len() {
        None
    } else {
        match ws_to_tcp_reached(s, turns, (n - 1) as nat) {
            Some(before) => match ws_to_tcp_step(before, turns[n - 1].0, turns[n - 1].1) {
                Some((next, _)) => Some(next),
                None => None,
            },
            None => None,
        }
    }
}

/// The action with which the pump answers turn `i` of a run that starts in `s`.
pub open spec fn ws_to_tcp_output(s: WsToTcpView, turns: Seq<WsToTcpTurn>, i: int) -> Option<
    WsToTcpActionView,
> {
    if 0 <= i < turns.len() {
        match ws_to_tcp_reached(s, turns, i as nat) {
            Some(before) => match ws_to_tcp_step(before, turns[i].0, turns[i].1) {
                Some((_, act)) => Some(act),
                None => None,
            },
            None => None,
        }
    } else {
        None
    }
}

/// The payloads of the binary messages among the first `n` turns, end to end.
pub open spec fn ws_to_tcp_received(turns: Seq<WsToTcpTurn>, n: nat) -> Seq<u8>
    decreases n,
{
    if n == 0 || n > turns.len() {
        Seq::empty()
    } else {
        let earlier = ws_to_tcp_received(turns, (n - 1) as nat);
        match turns[n - 1].0 {
            WsToTcpEventView::Message(WsMessageView::Binary(data)) => earlier + data,
            _ => earlier,
        }
    }
}

/// The bytes handed to the TCP side in answer to the first `n` turns, end to end.
pub open spec fn ws_to_tcp_written(s: WsToTcpView, turns: Seq<WsToTcpTurn>, n: nat) -> Seq<u8>
    decreases n,
{
    if n == 0 {
        Seq::empty()
    } else {
        let earlier = ws_to_tcp_written(s, turns, (n - 1) as nat);
        match ws_to_tcp_output(s, turns, n - 1) {
            Some(WsToTcpActionView::Write(data)) => earlier + data,
            _ => earlier,
        }
    }
}

/// A run that reaches a state after `n` turns has reached one after every
/// shorter prefix.
pub proof fn lemma_ws_to_tcp_prefix(s: WsToTcpView, turns: Seq<WsToTcpTurn>, m: nat, n: nat)
    requires
        m <= n,
        ws_to_tcp_reached(s, turns, n) is Some,
    ensures
        ws_to_tcp_reached(s, turns, m) is Some,
        n <= turns.len(),
    decreases n,
{
    if m < n {
        lemma_ws_to_tcp_prefix(s, turns, m, (n - 1) as nat);
    }
}

/// Every byte of every binary message is handed to the TCP side, once, in the
/// order of arrival, and nothing else is: after any run, the bytes written are
/// the received payloads end to end.
pub proof fn law_ws_to_tcp_forwards_payloads(s: WsToTcpView, turns: Seq<WsToTcpTurn>, n: nat)
    requires
        ws_to_tcp_reached(s, turns, n) is Some,
    ensures
        ws_to_tcp_written(s, turns, n) == ws_to_tcp_received(turns, n),
    decreases n,
{
    if n > 0 {
        lemma_ws_to_tcp_prefix(s, turns, (n - 1) as nat, n);
        law_ws_to_tcp_forwards_payloads(s, turns, (n - 1) as nat);
    }
}

/// A close message from the peer is recorded and does not end the pump.
pub proof fn law_ws_to_tcp_close_is_recorded(
    s: WsToTcpView,
    frame: Option<CloseFrameView>,
    delivered: bool,
)
    requires
        s.phase == WsToTcpPhase::Receiving,
    ensures
        ws_to_tcp_step(s, WsToTcpEventView::Message(WsMessageView::Close(frame)), delivered)
            == Some(
            (
                WsToTcpView { phase: WsToTcpPhase::Receiving, peer_closed: true, ..s },
                WsToTcpActionView::Receive,
            ),
        ),
{
}

/// Raising the stop signal is best effort: whether or not the sibling is still
/// there to receive it, the pump takes the same events and answers them with the
/// same action; the outcome is neither an error nor a reason to wait.
pub proof fn law_ws_to_tcp_signal_is_best_effort(s: WsToTcpView, event: WsToTcpEventView)
    ensures
        match (ws_to_tcp_step(s, event, true), ws_to_tcp_step(s, event, false)) {
            (Some((there, with_sibling)), Some((gone, without_sibling))) => with_sibling
                == without_sibling && there.phase == gone.phase,
            (None, None) => true,
            _ => false,
        },
{
}

/// The stop signal is raised exactly when the pump ends: through every run, the
/// signal is pending while the pump relays and raised once it has finished.
pub proof fn law_ws_to_tcp_signals_when_it_ends(s: WsToTcpView, turns: Seq<WsToTcpTurn>, n: nat)
    requires
        ws_to_tcp_coherent(s),
        ws_to_tcp_reached(s, turns, n) is Some,
    ensures
        ws_to_tcp_coherent(ws_to_tcp_reached(s, turns, n)->0),
    decreases n,
{
    if n > 0 {
        lemma_ws_to_tcp_prefix(s, turns, (n - 1) as nat, n);
        law_ws_to_tcp_signals_when_it_ends(s, turns, (n - 1) as nat);
    }
}

/// A pump that has finished takes no further event: it writes nothing more, and
/// its signal, raised once, stays as it is.
pub proof fn law_ws_to_tcp_is_final(s: WsToTcpView, event: WsToTcpEventView, delivered: bool)
    requires
        s.phase == WsToTcpPhase::Finished,
    ensures
        ws_to_tcp_step(s, event, delivered) is None,
{
}

} // verus!
