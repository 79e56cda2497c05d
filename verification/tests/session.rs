use tokio::sync::oneshot::error::TryRecvError;
use tokio_tungstenite::tungstenite::protocol::frame::coding::CloseCode;
use websocket_bridge::endpoint::TcpOrDestination;
use websocket_bridge::establish::{EstablishAction, EstablishEvent, Establishment};
use websocket_bridge::message::{WsMessage, CLOSE_CODE_ERROR};
use websocket_bridge::pump_tcp::{TcpToWsAction, TcpToWsEvent, TcpToWsPhase};
use websocket_bridge::pump_ws::{WsToTcpAction, WsToTcpEvent, WsToTcpPhase};
use websocket_bridge::session::Relay;
use websocket_bridge::signal::Signal;
use websocket_bridge::teardown::{PumpExit, Teardown, TeardownAction, TeardownEvent};

/// Stands for the connection of the TCP client.
#[derive(Debug)]
struct Client;

#[test]
fn error_close_code_is_the_one_on_the_wire() {
    assert_eq!(u16::from(CloseCode::Error), CLOSE_CODE_ERROR);
    assert_eq!(CloseCode::from(CLOSE_CODE_ERROR), CloseCode::Error);
}

#[test]
fn pumps_start_together_with_both_signals_pending() {
    let mut relay = Relay::start();
    assert_eq!(relay.ws_to_tcp.phase(), WsToTcpPhase::Receiving);
    assert_eq!(relay.tcp_to_ws.phase(), TcpToWsPhase::Reading);
    assert_eq!(relay.ws_to_tcp.signal(), Signal::Pending);
    assert_eq!(relay.tcp_to_ws.signal(), Signal::Pending);
    assert_eq!(relay.ws_to_tcp_stop.try_recv(), Err(TryRecvError::Empty));
    assert_eq!(relay.tcp_to_ws_stop.try_recv(), Err(TryRecvError::Empty));
}

#[test]
fn each_pump_signals_its_sibling_and_not_itself() {
    let mut relay = Relay::start();
    relay.ws_to_tcp.step(WsToTcpEvent::EndOfStream);
    assert_eq!(relay.tcp_to_ws_stop.try_recv(), Ok(true));
    assert_eq!(relay.ws_to_tcp_stop.try_recv(), Err(TryRecvError::Empty));

    let mut other = Relay::start();
    other.tcp_to_ws.step(TcpToWsEvent::StopRequested);
    assert_eq!(other.ws_to_tcp_stop.try_recv(), Ok(true));
    assert_eq!(other.tcp_to_ws_stop.try_recv(), Err(TryRecvError::Empty));
}

#[test]
fn hello_is_echoed_back_through_the_bridge() {
    // A TCP client has connected to the listener; the echo server is dialed.
    let (mut establishment, first) = Establishment::<String>::begin(
        &TcpOrDestination::Dest("ws://127.0.0.1:9002".to_string()),
        &TcpOrDestination::Tcp(Client),
    );
    assert_eq!(first, EstablishAction::DialWebSocket("ws://127.0.0.1:9002".to_string()));
    assert_eq!(establishment.step(EstablishEvent::WebSocketReady), Some(EstablishAction::Relay));

    let relay = Relay::start();
    let mut to_server = relay.tcp_to_ws;
    let mut to_client = relay.ws_to_tcp;
    let mut stop_for_client_side = relay.ws_to_tcp_stop;
    let stop_for_server_side = relay.tcp_to_ws_stop;

    // The client sends its greeting, which goes to the server as one message.
    let message = match to_server.step(TcpToWsEvent::Read(b"hello".to_vec())) {
        Some(TcpToWsAction::Send(message)) => message,
        other => panic!("nothing was sent: {:?}", other),
    };
    assert_eq!(message, WsMessage::Binary(b"hello".to_vec()));
    assert_eq!(to_server.step(TcpToWsEvent::Sent), Some(TcpToWsAction::Read));

    // The server echoes the message, which goes back to the client as bytes.
    let received = match to_client.step(WsToTcpEvent::Message(message)) {
        Some(WsToTcpAction::Write(bytes)) => bytes,
        other => panic!("nothing was written: {:?}", other),
    };
    assert_eq!(received, b"hello".to_vec());
    assert_eq!(to_client.step(WsToTcpEvent::Written), Some(WsToTcpAction::Receive));

    // The client hangs up: the server is told, and the pump ends.
    assert_eq!(
        to_server.step(TcpToWsEvent::Read(Vec::new())),
        Some(TcpToWsAction::Send(WsMessage::Close(None)))
    );
    assert_eq!(to_server.step(TcpToWsEvent::Sent), Some(TcpToWsAction::Finish));
    assert_eq!(to_server.signal(), Signal::Delivered);
    drop(stop_for_server_side);

    // Its signal waits for the other pump, which ends in turn; by then nobody
    // is left to hear of it.
    assert_eq!(stop_for_client_side.try_recv(), Ok(true));
    assert_eq!(to_client.step(WsToTcpEvent::StopRequested), Some(WsToTcpAction::Finish));
    assert_eq!(to_client.signal(), Signal::Dropped);

    // Both pumps have returned: each connection is shut down once.
    let mut teardown = Teardown::new();
    assert_eq!(
        teardown.step(TeardownEvent::Joined {
            ws_to_tcp: PumpExit::Returned,
            tcp_to_ws: PumpExit::Returned,
        }),
        Some(TeardownAction::ShutdownTcp)
    );
    assert_eq!(
        teardown.step(TeardownEvent::TcpClosed(true)),
        Some(TeardownAction::ShutdownWebSocket)
    );
    assert_eq!(teardown.step(TeardownEvent::WebSocketClosed(true)), Some(TeardownAction::Done));
}

#[test]
fn websocket_end_stops_the_tcp_pump_without_a_close_message() {
    let relay = Relay::start();
    let mut to_server = relay.tcp_to_ws;
    let mut to_client = relay.ws_to_tcp;
    let mut stop_for_server_side = relay.tcp_to_ws_stop;
    assert_eq!(to_client.step(WsToTcpEvent::EndOfStream), Some(WsToTcpAction::Finish));
    // The signal waits for the sibling, which takes it when it next reads.
    assert_eq!(stop_for_server_side.try_recv(), Ok(true));
    assert_eq!(to_server.step(TcpToWsEvent::StopRequested), Some(TcpToWsAction::Finish));
    assert_eq!(to_server.phase(), TcpToWsPhase::Finished);
    assert_eq!(to_client.phase(), WsToTcpPhase::Finished);
}
