use tokio::sync::oneshot::error::TryRecvError;
use tokio::sync::oneshot::Receiver;
use websocket_bridge::message::WsMessage;
use websocket_bridge::pump_tcp::{
    TcpToWsAction, TcpToWsEvent, TcpToWsPhase, TcpToWsPump, READ_BUFFER_SIZE,
};
use websocket_bridge::signal::{Signal, StopSignal};

/// A fresh pump, and the end on which its sibling would wait for its signal.
fn tcp_pump() -> (TcpToWsPump, Receiver<bool>) {
    let (signal, receiver) = StopSignal::new();
    (TcpToWsPump::new(signal), receiver)
}

fn read(bytes: &[u8]) -> TcpToWsEvent {
    TcpToWsEvent::Read(bytes.to_vec())
}

fn close() -> Option<TcpToWsAction> {
    Some(TcpToWsAction::Send(WsMessage::Close(None)))
}

#[test]
fn new_pump_waits_for_a_chunk() {
    let (pump, _sibling) = tcp_pump();
    assert_eq!(pump.phase(), TcpToWsPhase::Reading);
    assert_eq!(pump.signal(), Signal::Pending);
    assert_eq!(READ_BUFFER_SIZE, 1024);
}

#[test]
fn tcp_pump_with_a_raised_signal_has_finished() {
    let (mut signal, _receiver) = StopSignal::new();
    signal.raise();
    let mut pump = TcpToWsPump::new(signal);
    assert_eq!(pump.phase(), TcpToWsPhase::Finished);
    assert_eq!(pump.step(read(b"x")), None);
}

#[test]
fn chunk_goes_out_as_one_binary_message() {
    let (mut pump, _sibling) = tcp_pump();
    assert_eq!(
        pump.step(read(b"hello")),
        Some(TcpToWsAction::Send(WsMessage::Binary(b"hello".to_vec())))
    );
    assert_eq!(pump.phase(), TcpToWsPhase::Sending);
    assert_eq!(pump.step(TcpToWsEvent::Sent), Some(TcpToWsAction::Read));
    assert_eq!(pump.phase(), TcpToWsPhase::Reading);
}

#[test]
fn long_write_arrives_as_several_messages_in_order() {
    let payload: Vec<u8> = (0..2000u32).map(|i| (i % 251) as u8).collect();
    let (mut pump, _sibling) = tcp_pump();
    let mut messages: Vec<Vec<u8>> = Vec::new();
    for chunk in payload.chunks(READ_BUFFER_SIZE) {
        match pump.step(read(chunk)) {
            Some(TcpToWsAction::Send(WsMessage::Binary(data))) => messages.push(data),
            other => panic!("no binary message: {:?}", other),
        }
        assert_eq!(pump.step(TcpToWsEvent::Sent), Some(TcpToWsAction::Read));
    }
    assert_eq!(messages.len(), 2);
    assert_eq!(messages[0].len(), 1024);
    assert_eq!(messages[1].len(), 976);
    assert_eq!(messages.concat(), payload);
}

#[test]
fn full_buffer_is_forwarded_and_a_longer_chunk_is_refused() {
    let (mut pump, _sibling) = tcp_pump();
    let over = vec![1u8; READ_BUFFER_SIZE + 1];
    assert_eq!(pump.step(TcpToWsEvent::Read(over)), None);
    assert_eq!(pump.phase(), TcpToWsPhase::Reading);
    let full = vec![2u8; READ_BUFFER_SIZE];
    assert_eq!(
        pump.step(TcpToWsEvent::Read(full.clone())),
        Some(TcpToWsAction::Send(WsMessage::Binary(full)))
    );
}

#[test]
fn half_close_sends_close_and_no_more_data() {
    let (mut pump, mut sibling) = tcp_pump();
    pump.step(read(b"last"));
    pump.step(TcpToWsEvent::Sent);
    assert_eq!(pump.step(read(b"")), close());
    assert_eq!(pump.phase(), TcpToWsPhase::Closing);
    assert_eq!(sibling.try_recv(), Err(TryRecvError::Empty));
    assert_eq!(pump.step(read(b"more")), None);
    assert_eq!(pump.step(TcpToWsEvent::Sent), Some(TcpToWsAction::Finish));
    assert_eq!(pump.step(read(b"more")), None);
    assert_eq!(pump.phase(), TcpToWsPhase::Finished);
    assert_eq!(sibling.try_recv(), Ok(true));
}

#[test]
fn tcp_read_failure_still_sends_close() {
    let (mut pump, _sibling) = tcp_pump();
    assert_eq!(pump.step(TcpToWsEvent::ReadFailed), close());
    assert_eq!(pump.phase(), TcpToWsPhase::Closing);
}

#[test]
fn websocket_send_failure_still_attempts_close() {
    let (mut pump, _sibling) = tcp_pump();
    pump.step(read(b"data"));
    assert_eq!(pump.step(TcpToWsEvent::SendFailed), close());
    assert_eq!(pump.phase(), TcpToWsPhase::Closing);
}

#[test]
fn failed_close_does_not_keep_the_pump() {
    let (mut pump, sibling) = tcp_pump();
    drop(sibling);
    pump.step(read(b""));
    assert_eq!(pump.step(TcpToWsEvent::SendFailed), Some(TcpToWsAction::Finish));
    assert_eq!(pump.phase(), TcpToWsPhase::Finished);
    assert_eq!(pump.signal(), Signal::Dropped);
}

#[test]
fn stop_request_suppresses_the_close_message() {
    let (mut pump, mut sibling) = tcp_pump();
    pump.step(read(b"data"));
    pump.step(TcpToWsEvent::Sent);
    assert_eq!(pump.step(TcpToWsEvent::StopRequested), Some(TcpToWsAction::Finish));
    assert_eq!(pump.phase(), TcpToWsPhase::Finished);
    assert_eq!(pump.signal(), Signal::Delivered);
    assert_eq!(sibling.try_recv(), Ok(true));
    assert_eq!(pump.step(TcpToWsEvent::Sent), None);
}

#[test]
fn stop_request_is_taken_only_while_reading() {
    let (mut pump, _sibling) = tcp_pump();
    pump.step(read(b"data"));
    assert_eq!(pump.step(TcpToWsEvent::StopRequested), None);
    assert_eq!(pump.phase(), TcpToWsPhase::Sending);
    pump.step(TcpToWsEvent::SendFailed);
    assert_eq!(pump.step(TcpToWsEvent::StopRequested), None);
    assert_eq!(pump.phase(), TcpToWsPhase::Closing);
}

#[test]
fn tcp_pump_sends_close_and_ends_once_each() {
    let (mut pump, mut sibling) = tcp_pump();
    let mut closes = 0;
    let mut ends = 0;
    let events = vec![
        TcpToWsEvent::ReadFailed,
        TcpToWsEvent::Read(Vec::new()),
        TcpToWsEvent::ReadFailed,
        TcpToWsEvent::Sent,
        TcpToWsEvent::Sent,
        TcpToWsEvent::StopRequested,
        TcpToWsEvent::SendFailed,
    ];
    for event in events {
        match pump.step(event) {
            Some(TcpToWsAction::Send(WsMessage::Close(None))) => closes += 1,
            Some(TcpToWsAction::Finish) => ends += 1,
            None => {}
            other => panic!("unexpected action: {:?}", other),
        }
    }
    assert_eq!(closes, 1);
    assert_eq!(ends, 1);
    assert_eq!(pump.phase(), TcpToWsPhase::Finished);
    assert_eq!(sibling.try_recv(), Ok(true));
    assert_eq!(sibling.try_recv(), Err(TryRecvError::Closed));
}

#[test]
fn tcp_pump_refuses_events_out_of_turn() {
    let (mut pump, _sibling) = tcp_pump();
    assert_eq!(pump.step(TcpToWsEvent::Sent), None);
    assert_eq!(pump.step(TcpToWsEvent::SendFailed), None);
    assert_eq!(pump.phase(), TcpToWsPhase::Reading);
    pump.step(read(b"x"));
    assert_eq!(pump.step(read(b"y")), None);
    assert_eq!(pump.step(TcpToWsEvent::ReadFailed), None);
    assert_eq!(pump.phase(), TcpToWsPhase::Sending);
    assert_eq!(pump.signal(), Signal::Pending);
}
