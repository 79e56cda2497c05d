//! The pump that moves data from the TCP connection to the WebSocket connection.
//!
//! The pump waits for the next chunk of bytes or for its sibling's stop signal,
//! whichever comes first. Every chunk goes out as one binary message. A TCP
//! stream has no way to tell a WebSocket peer that it has ended, so when the
//! pump ends on its own account (end of stream, read failure, send failure) it
//! sends a close message first. When it ends because the sibling asked it to,
//! the WebSocket side is already being taken down and no close message is sent.
//! Either way the pump raises its own stop signal as it ends.

use crate::message::{WsMessage, WsMessageView};
use crate::signal::{sent, Signal, StopSignal};
use vstd::prelude::*;

verus! {

/// The most bytes a single read may deliver, and so the longest payload of a
/// binary message.
pub const READ_BUFFER_SIZE: usize = 1024;

/// What the pump is waiting for.
#[derive(Clone, Copy, Debug, PartialEq, Eq, Structural)]
pub enum TcpToWsPhase {
    /// Waiting for the next chunk or the sibling's stop signal.
    Reading,
    /// Waiting for a binary message to go out.
    Sending,
    /// The pump has ended on its own account; the close message is going out.
    Closing,
    /// The pump has stopped and raised its stop signal.
    Finished,
}

/// Mathematical value of a [`TcpToWsPump`].
pub struct TcpToWsView {
    pub phase: TcpToWsPhase,
    /// What has become of the pump's own stop signal.
    pub signal: Signal,
}

/// What happened while the pump waited.
#[derive(Debug)]
pub enum TcpToWsEvent {
    /// A read returned these bytes; none means that the peer has closed its side.
    Read(Vec<u8>),
    /// Reading from the TCP side failed.
    ReadFailed,
    /// The pending message went out.
    Sent,
    /// The pending message could not be sent.
    SendFailed,
    /// The sibling pump's stop signal arrived.
    StopRequested,
}

/// Mathematical value of a [`TcpToWsEvent`].
pub enum TcpToWsEventView {
    Read(Seq<u8>),
    ReadFailed,
    Sent,
    SendFailed,
    StopRequested,
}

impl View for TcpToWsEvent {
    type V = TcpToWsEventView;

    open spec fn view(&self) -> TcpToWsEventView {
        match self {
            TcpToWsEvent::Read(chunk) => TcpToWsEventView::Read(chunk@),
            TcpToWsEvent::ReadFailed => TcpToWsEventView::ReadFailed,
            TcpToWsEvent::Sent => TcpToWsEventView::Sent,
            TcpToWsEvent::SendFailed => TcpToWsEventView::SendFailed,
            TcpToWsEvent::StopRequested => TcpToWsEventView::StopRequested,
        }
    }
}

/// What the caller has to do next.
#[derive(Debug, PartialEq, Eq)]
pub enum TcpToWsAction {
    /// Read at most [`READ_BUFFER_SIZE`] bytes, or take the sibling's stop signal.
    Read,
    /// Send this message on the WebSocket side.
    Send(WsMessage),
    /// Return the TCP read half and the WebSocket write half.
    Finish,
}

/// Mathematical value of a [`TcpToWsAction`].
pub enum TcpToWsActionView {
    Read,
    Send(WsMessageView),
    Finish,
}

impl View for TcpToWsAction {
    type V = TcpToWsActionView;

    open spec fn view(&self) -> TcpToWsActionView {
        match self {
            TcpToWsAction::Read => TcpToWsActionView::Read,
            TcpToWsAction::Send(m) => TcpToWsActionView::Send(m@),
            TcpToWsAction::Finish => TcpToWsActionView::Finish,
        }
    }
}

/// The close message that announces the end of the TCP stream: it carries no
/// code and no reason.
pub open spec fn plain_close() -> TcpToWsActionView {
    TcpToWsActionView::Send(WsMessageView::Close(None))
}

/// The state in which the pump starts: reading, with its signal pending.
pub open spec fn tcp_to_ws_start() -> TcpToWsView {
    TcpToWsView { phase: TcpToWsPhase::Reading, signal: Signal::Pending }
}

/// The state of a pump that ends now, where `delivered` says whether its stop
/// signal finds the sibling's receiving end.
pub open spec fn tcp_to_ws_ended(delivered: bool) -> TcpToWsView {
    TcpToWsView { phase: TcpToWsPhase::Finished, signal: sent(delivered) }
}

/// The transition relation: the state and action that follow `event` in state
/// `s`, or `None` where the event cannot occur in that state. Where the pump
/// ends, `delivered` says whether its stop signal finds the sibling's receiving
/// end; it bears on nothing else.
pub open spec fn tcp_to_ws_step(s: TcpToWsView, event: TcpToWsEventView, delivered: bool) -> Option<
    (TcpToWsView, TcpToWsActionView),
> {
    match (s.phase, event) {
        (TcpToWsPhase::Reading, TcpToWsEventView::Read(chunk)) => if chunk.len() == 0 {
            Some((TcpToWsView { phase: TcpToWsPhase::Closing, ..s }, plain_close()))
        } else if chunk.len() <= READ_BUFFER_SIZE {
            Some(
                (
                    TcpToWsView { phase: TcpToWsPhase::Sending, ..s },
                    TcpToWsActionView::Send(WsMessageView::Binary(chunk)),
                ),
            )
        } else {
            None
        },
        (TcpToWsPhase::Reading, TcpToWsEventView::ReadFailed)
        | (TcpToWsPhase::Sending, TcpToWsEventView::SendFailed) => Some(
            (TcpToWsView { phase: TcpToWsPhase::Closing, ..s }, plain_close()),
        ),
        (TcpToWsPhase::Reading, TcpToWsEventView::StopRequested)
        | (TcpToWsPhase::Closing, TcpToWsEventView::Sent)
        | (TcpToWsPhase::Closing, TcpToWsEventView::SendFailed) => Some(
            (tcp_to_ws_ended(delivered), TcpToWsActionView::Finish),
        ),
        (TcpToWsPhase::Sending, TcpToWsEventView::Sent) => Some(
            (TcpToWsView { phase: TcpToWsPhase::Reading, ..s }, TcpToWsActionView::Read),
        ),
        _ => None,
    }
}

/// What holds of every pump: its signal is pending exactly until it has
/// finished.
pub open spec fn tcp_to_ws_coherent(s: TcpToWsView) -> bool {
    (s.phase == TcpToWsPhase::Finished) == !(s.signal is Pending)
}

/// What a pump that has not finished is waiting for.
#[derive(Clone, Copy)]
enum Waiting {
    Chunk,
    Message,
    Close,
}

/// The TCP-to-WebSocket pump of one session.
pub struct TcpToWsPump {
    waiting: Waiting,
    /// The pump's own stop signal; once it is raised the pump has finished.
    stop: StopSignal,
}

impl View for TcpToWsPump {
    type V = TcpToWsView;

    closed spec fn view(&self) -> TcpToWsView {
        TcpToWsView {
            phase: if !(self.stop@ is Pending) {
                TcpToWsPhase::Finished
            } else {
                match self.waiting {
                    Waiting::Chunk => TcpToWsPhase::Reading,
                    Waiting::Message => TcpToWsPhase::Sending,
                    Waiting::Close => TcpToWsPhase::Closing,
                }
            },
            signal: self.stop@,
        }
    }
}

impl TcpToWsPump {
    /// A pump that will raise `stop` when it ends. With a pending signal it is
    /// about to wait for its first chunk, and the first thing to do is
    /// [`TcpToWsAction::Read`]; with a signal that was raised before, it has
    /// finished before it began.
    pub fn new(stop: StopSignal) -> (pump: TcpToWsPump)
        ensures
            tcp_to_ws_coherent(pump@),
            pump@.signal == stop@,
            stop@ is Pending ==> pump@ == tcp_to_ws_start(),
    {
        TcpToWsPump { waiting: Waiting::Chunk, stop }
    }

    /// What the pump is waiting for.
    pub fn phase(&self) -> (phase: TcpToWsPhase)
        ensures
            phase == self@.phase,
            tcp_to_ws_coherent(self@),
    {
        match self.stop.state() {
            Signal::Pending => match self.waiting {
                Waiting::Chunk => TcpToWsPhase::Reading,
                Waiting::Message => TcpToWsPhase::Sending,
                Waiting::Close => TcpToWsPhase::Closing,
            },
            _ => TcpToWsPhase::Finished,
        }
    }

    /// What has become of the pump's stop signal.
    pub fn signal(&self) -> (signal: Signal)
        ensures
            signal == self@.signal,
    {
        self.stop.state()
    }

    /// Takes what happened and says what to do next. Where this ends the pump,
    /// its stop signal is raised before the call returns, and the new state
    /// records whether the signal was delivered. An event that cannot occur in
    /// the current phase changes nothing and yields `None`; so does a chunk
    /// longer than [`READ_BUFFER_SIZE`].
    pub fn step(&mut self, event: TcpToWsEvent) -> (action: Option<TcpToWsAction>)
        ensures
            match tcp_to_ws_step(old(self)@, event@, final(self)@.signal is Delivered) {
                Some((next, act)) => final(self)@ == next && action is Some && action->0@ == act,
                None => final(self)@ == old(self)@ && action is None,
            },
    {
        match (self.phase(), event) {
            (TcpToWsPhase::Reading, TcpToWsEvent::Read(chunk)) => {
                if chunk.len() == 0 {
                    self.waiting = Waiting::Close;
                    Some(TcpToWsAction::Send(WsMessage::Close(None)))
                } else if chunk.len() <= READ_BUFFER_SIZE {
                    self.waiting = Waiting::Message;
                    Some(TcpToWsAction::Send(WsMessage::Binary(chunk)))
                } else {
                    None
                }
            },
            (TcpToWsPhase::Reading, TcpToWsEvent::ReadFailed)
            | (TcpToWsPhase::Sending, TcpToWsEvent::SendFailed) => {
                self.waiting = Waiting::Close;
                Some(TcpToWsAction::Send(WsMessage::Close(None)))
            },
            (TcpToWsPhase::Reading, TcpToWsEvent::StopRequested)
            | (TcpToWsPhase::Closing, TcpToWsEvent::Sent)
            | (TcpToWsPhase::Closing, TcpToWsEvent::SendFailed) => {
                self.stop.raise();
                Some(TcpToWsAction::Finish)
            },
            (TcpToWsPhase::Sending, TcpToWsEvent::Sent) => {
                self.waiting = Waiting::Chunk;
                Some(TcpToWsAction::Read)
            },
            _ => None,
        }
    }
}

/// One turn of a run: what happened, and whether a stop signal raised in
/// answer to it would find the sibling's receiving end.
pub type TcpToWsTurn = (TcpToWsEventView, bool);

/// The state after the first `n` of `turns`, starting in `s`; `None` where one
/// of the events could not occur.
pub open spec fn tcp_to_ws_reached(s: TcpToWsView, turns: Seq<TcpToWsTurn>, n: nat) -> Option<
    TcpToWsView,
>
    decreases n,
{
    if n == 0 {
        Some(s)
    } else if n > turns.len() {
        None
    } else {
        match tcp_to_ws_reached(s, turns, (n - 1) as nat) {
            Some(before) => match tcp_to_ws_step(before, turns[n - 1].0, turns[n - 1].1) {
                Some((next, _)) => Some(next),
                None => None,
            },
            None => None,
        }
    }
}

/// The action with which the pump answers turn `i` of a run that starts in `s`.
pub open spec fn tcp_to_ws_output(s: TcpToWsView, turns: Seq<TcpToWsTurn>, i: int) -> Option<
    TcpToWsActionView,
> {
    if 0 <= i < turns.len() {
        match tcp_to_ws_reached(s, turns, i as nat) {
            Some(before) => match tcp_to_ws_step(before, turns[i].0, turns[i].1) {
                Some((_, act)) => Some(act),
                None => None,
            },
            None => None,
        }
    } else {
        None
    }
}

/// The chunks that carry data among the first `n` turns, in order.
pub open spec fn tcp_to_ws_chunks(turns: Seq<TcpToWsTurn>, n: nat) -> Seq<Seq<u8>>
    decreases n,
{
    if n == 0 || n > turns.len() {
        Seq::empty()
    } else {
        let earlier = tcp_to_ws_chunks(turns, (n - 1) as nat);
        match turns[n - 1].0 {
            TcpToWsEventView::Read(chunk) => if chunk.len() > 0 {
                earlier.push(chunk)
            } else {
                earlier
            },
            _ => earlier,
        }
    }
}

/// The payloads of the binary messages sent in answer to the first `n` turns,
/// in order.
pub open spec fn tcp_to_ws_messages(s: TcpToWsView, turns: Seq<TcpToWsTurn>, n: nat) -> Seq<
    Seq<u8>,
>
    decreases n,
{
    if n == 0 {
        Seq::empty()
    } else {
        let earlier = tcp_to_ws_messages(s, turns, (n - 1) as nat);
        match tcp_to_ws_output(s, turns, n - 1) {
            Some(TcpToWsActionView::Send(WsMessageView::Binary(payload))) => earlier.push(payload),
            _ => earlier,
        }
    }
}

/// Whether the pump forwards no more data: it is closing, or has finished.
pub open spec fn tcp_to_ws_winding_down(s: TcpToWsView) -> bool {
    s.phase == TcpToWsPhase::Closing || s.phase == TcpToWsPhase::Finished
}

/// A run that reaches a state after `n` turns has reached one after every
/// shorter prefix.
pub proof fn lemma_tcp_to_ws_prefix(s: TcpToWsView, turns: Seq<TcpToWsTurn>, m: nat, n: nat)
    requires
        m <= n,
        tcp_to_ws_reached(s, turns, n) is Some,
    ensures
        tcp_to_ws_reached(s, turns, m) is Some,
        n <= turns.len(),
    decreases n,
{
    if m < n {
        lemma_tcp_to_ws_prefix(s, turns, m, (n - 1) as nat);
    }
}

/// A pump that forwards no more data never forwards again, and one that has
/// finished stays finished.
pub proof fn lemma_tcp_to_ws_stays_down(s: TcpToWsView, turns: Seq<TcpToWsTurn>, m: nat, n: nat)
    requires
        m <= n,
        tcp_to_ws_reached(s, turns, m) is Some,
        tcp_to_ws_reached(s, turns, n) is Some,
    ensures
        tcp_to_ws_winding_down(tcp_to_ws_reached(s, turns, m)->0) ==> tcp_to_ws_winding_down(
            tcp_to_ws_reached(s, turns, n)->0,
        ),
        tcp_to_ws_reached(s, turns, m)->0.phase == TcpToWsPhase::Finished ==> n == m,
    decreases n,
{
    if m < n {
        lemma_tcp_to_ws_prefix(s, turns, (n - 1) as nat, n);
        lemma_tcp_to_ws_stays_down(s, turns, m, (n - 1) as nat);
    }
}

/// Every chunk read goes out as one binary message with the same bytes, in the
/// order in which the chunks were read, and no other binary message is sent.
pub proof fn law_tcp_to_ws_forwards_chunks(s: TcpToWsView, turns: Seq<TcpToWsTurn>, n: nat)
    requires
        tcp_to_ws_reached(s, turns, n) is Some,
    ensures
        tcp_to_ws_messages(s, turns, n) == tcp_to_ws_chunks(turns, n),
    decreases n,
{
    if n > 0 {
        lemma_tcp_to_ws_prefix(s, turns, (n - 1) as nat, n);
        law_tcp_to_ws_forwards_chunks(s, turns, (n - 1) as nat);
    }
}

/// No binary message is empty or longer than the read buffer, and each is the
/// chunk that was just read.
pub proof fn law_tcp_to_ws_message_fits_buffer(
    s: TcpToWsView,
    turns: Seq<TcpToWsTurn>,
    i: int,
    payload: Seq<u8>,
)
    requires
        tcp_to_ws_output(s, turns, i) == Some(
            TcpToWsActionView::Send(WsMessageView::Binary(payload)),
        ),
    ensures
        0 < payload.len() <= READ_BUFFER_SIZE,
        turns[i].0 == TcpToWsEventView::Read(payload),
{
}

/// When the TCP peer closes its side (a read that returns no bytes), the pump
/// sends the close message, and from then on no binary message.
pub proof fn law_tcp_to_ws_half_close(s: TcpToWsView, turns: Seq<TcpToWsTurn>, i: int, j: int)
    requires
        0 <= i < turns.len(),
        turns[i].0 == TcpToWsEventView::Read(Seq::empty()),
        tcp_to_ws_output(s, turns, i) is Some,
        i < j,
    ensures
        tcp_to_ws_output(s, turns, i) == Some(plain_close()),
        !(tcp_to_ws_output(s, turns, j) matches Some(
            TcpToWsActionView::Send(WsMessageView::Binary(_)),
        )),
{
    if tcp_to_ws_output(s, turns, j) is Some {
        lemma_tcp_to_ws_prefix(s, turns, (i + 1) as nat, j as nat);
        lemma_tcp_to_ws_stays_down(s, turns, (i + 1) as nat, j as nat);
    }
}

/// A pump that stops because its sibling asked it to sends nothing more, no
/// data and no close message: it finishes at once.
pub proof fn law_tcp_to_ws_stop_suppresses_close(
    s: TcpToWsView,
    turns: Seq<TcpToWsTurn>,
    i: int,
    j: int,
)
    requires
        0 <= i < turns.len(),
        turns[i].0 == TcpToWsEventView::StopRequested,
        tcp_to_ws_output(s, turns, i) is Some,
        i < j,
    ensures
        tcp_to_ws_output(s, turns, i) == Some(TcpToWsActionView::Finish),
        tcp_to_ws_output(s, turns, j) is None,
{
    if tcp_to_ws_output(s, turns, j) is Some {
        lemma_tcp_to_ws_prefix(s, turns, (i + 1) as nat, j as nat);
        lemma_tcp_to_ws_stays_down(s, turns, (i + 1) as nat, j as nat);
    }
}

/// The close message is sent at most once, and nothing is sent after it.
pub proof fn law_tcp_to_ws_closes_once(s: TcpToWsView, turns: Seq<TcpToWsTurn>, i: int, j: int)
    requires
        0 <= i < j,
        tcp_to_ws_output(s, turns, i) == Some(plain_close()),
    ensures
        !(tcp_to_ws_output(s, turns, j) matches Some(TcpToWsActionView::Send(_))),
{
    if tcp_to_ws_output(s, turns, j) is Some {
        lemma_tcp_to_ws_prefix(s, turns, (i + 1) as nat, j as nat);
        lemma_tcp_to_ws_stays_down(s, turns, (i + 1) as nat, j as nat);
    }
}

/// The WebSocket peer is always told when the TCP stream ends: a pump that
/// forwards no more data has sent the close message, unless it was its sibling
/// that stopped it.
pub proof fn law_tcp_to_ws_closes_before_it_ends(s: TcpToWsView, turns: Seq<TcpToWsTurn>, n: nat)
    requires
        !tcp_to_ws_winding_down(s),
        tcp_to_ws_reached(s, turns, n) is Some,
        tcp_to_ws_winding_down(tcp_to_ws_reached(s, turns, n)->0),
    ensures
        n > 0,
        (exists|i: int|
            0 <= i < n && #[trigger] tcp_to_ws_output(s, turns, i) == Some(plain_close()))
            || turns[n - 1].0 == TcpToWsEventView::StopRequested,
    decreases n,
{
    if n > 0 {
        lemma_tcp_to_ws_prefix(s, turns, (n - 1) as nat, n);
        let before = tcp_to_ws_reached(s, turns, (n - 1) as nat)->0;
        if tcp_to_ws_winding_down(before) {
            law_tcp_to_ws_closes_before_it_ends(s, turns, (n - 1) as nat);
            if turns[n - 2].0 == TcpToWsEventView::StopRequested {
                lemma_tcp_to_ws_prefix(s, turns, (n - 2) as nat, (n - 1) as nat);
            }
        } else if turns[n - 1].0 != TcpToWsEventView::StopRequested {
            assert(tcp_to_ws_output(s, turns, n - 1) == Some(plain_close()));
        }
    }
}

/// Raising the stop signal is best effort: whether or not the sibling is still
/// there to receive it, the pump takes the same events and answers them with the
/// same action; the outcome is neither an error nor a reason to wait.
pub proof fn law_tcp_to_ws_signal_is_best_effort(s: TcpToWsView, event: TcpToWsEventView)
    ensures
        match (tcp_to_ws_step(s, event, true), tcp_to_ws_step(s, event, false)) {
            (Some((there, with_sibling)), Some((gone, without_sibling))) => with_sibling
                == without_sibling && there.phase == gone.phase,
            (None, None) => true,
            _ => false,
        },
{
}

/// The stop signal is raised exactly when the pump ends: through every run, the
/// signal is pending while the pump relays and raised once it has finished.
pub proof fn law_tcp_to_ws_signals_when_it_ends(s: TcpToWsView, turns: Seq<TcpToWsTurn>, n: nat)
    requires
        tcp_to_ws_coherent(s),
        tcp_to_ws_reached(s, turns, n) is Some,
    ensures
        tcp_to_ws_coherent(tcp_to_ws_reached(s, turns, n)->0),
    decreases n,
{
    if n > 0 {
        lemma_tcp_to_ws_prefix(s, turns, (n - 1) as nat, n);
        law_tcp_to_ws_signals_when_it_ends(s, turns, (n - 1) as nat);
    }
}

/// A pump that has finished takes no further event: it sends nothing more, and
/// its signal, raised once, stays as it is.
pub proof fn law_tcp_to_ws_is_final(s: TcpToWsView, event: TcpToWsEventView, delivered: bool)
    requires
        s.phase == TcpToWsPhase::Finished,
    ensures
        tcp_to_ws_step(s, event, delivered) is None,
{
}

} // verus!
