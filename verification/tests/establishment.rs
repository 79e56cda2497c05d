use websocket_bridge::endpoint::TcpOrDestination;
use websocket_bridge::establish::{EstablishAction, EstablishEvent, Establishment};
use websocket_bridge::message::{CloseFrame, CLOSE_CODE_ERROR};

/// Stands for a connection that a listener has handed out.
#[derive(Debug)]
struct Socket(u32);

fn accepted() -> TcpOrDestination<Socket> {
    TcpOrDestination::Tcp(Socket(4))
}

fn destination(text: &str) -> TcpOrDestination<Socket> {
    TcpOrDestination::Dest(text.to_string())
}

#[test]
fn descriptor_with_connection_is_accepted() {
    let descriptor = accepted();
    assert!(descriptor.is_accepted());
    assert_eq!(descriptor.destination(), None);
}

#[test]
fn descriptor_with_destination_names_it() {
    let descriptor = destination("127.0.0.1:22");
    assert!(!descriptor.is_accepted());
    assert_eq!(descriptor.destination(), Some("127.0.0.1:22".to_string()));
}

#[test]
fn accepted_websocket_side_starts_with_server_handshake() {
    let (machine, first) =
        Establishment::<String>::begin(&accepted(), &destination("127.0.0.1:22"));
    assert_eq!(first, EstablishAction::AcceptWebSocket);
    assert!(!machine.is_finished());
}

#[test]
fn websocket_destination_is_dialed_first() {
    let (_machine, first) = Establishment::<String>::begin(
        &destination("ws://127.0.0.1:9002"),
        &accepted(),
    );
    assert_eq!(first, EstablishAction::DialWebSocket("ws://127.0.0.1:9002".to_string()));
}

#[test]
fn live_websocket_then_tcp_destination_is_dialed() {
    let (mut machine, _) =
        Establishment::<String>::begin(&accepted(), &destination("127.0.0.1:22"));
    assert_eq!(
        machine.step(EstablishEvent::WebSocketReady),
        Some(EstablishAction::DialTcp("127.0.0.1:22".to_string()))
    );
    assert!(!machine.is_established());
    assert_eq!(machine.step(EstablishEvent::TcpConnected), Some(EstablishAction::Relay));
    assert!(machine.is_established());
    assert!(machine.is_finished());
}

#[test]
fn live_websocket_with_held_tcp_connection_relays_at_once() {
    let (mut machine, _) = Establishment::<String>::begin(
        &destination("ws://127.0.0.1:9002"),
        &accepted(),
    );
    assert_eq!(machine.step(EstablishEvent::WebSocketReady), Some(EstablishAction::Relay));
    assert!(machine.is_established());
}

#[test]
fn unreachable_tcp_destination_is_reported_to_the_websocket_peer() {
    let (mut machine, _) =
        Establishment::<String>::begin(&accepted(), &destination("127.0.0.1:1"));
    machine.step(EstablishEvent::WebSocketReady);
    let close = machine.step(EstablishEvent::TcpFailed("connection refused".to_string()));
    assert_eq!(
        close,
        Some(EstablishAction::SendClose(CloseFrame {
            code: 1011,
            reason: "Could not connect to destination".to_string(),
        }))
    );
    assert_eq!(CLOSE_CODE_ERROR, 1011);
    assert_eq!(machine.step(EstablishEvent::CloseSent), Some(EstablishAction::Drain));
    assert!(!machine.is_finished());
    assert_eq!(
        machine.step(EstablishEvent::Drained),
        Some(EstablishAction::Fail("connection refused".to_string()))
    );
    assert!(machine.is_finished());
    assert!(!machine.is_established());
}

#[test]
fn unreachable_frame_has_error_code_and_reason() {
    let frame = CloseFrame::destination_unreachable();
    assert_eq!(frame.code, CLOSE_CODE_ERROR);
    assert_eq!(frame.reason, "Could not connect to destination");
}

#[test]
fn failed_websocket_dial_releases_the_held_tcp_connection() {
    let (mut machine, _) = Establishment::<String>::begin(
        &destination("ws://127.0.0.1:9"),
        &accepted(),
    );
    assert_eq!(
        machine.step(EstablishEvent::WebSocketFailed("no route".to_string())),
        Some(EstablishAction::ReleaseTcp)
    );
    assert!(!machine.is_finished());
    assert_eq!(
        machine.step(EstablishEvent::TcpReleased),
        Some(EstablishAction::Fail("no route".to_string()))
    );
    assert!(machine.is_finished());
}

#[test]
fn failed_websocket_dial_with_nothing_held_fails_at_once() {
    let (mut machine, first) = Establishment::<String>::begin(
        &destination("ws://127.0.0.1:9"),
        &destination("127.0.0.1:22"),
    );
    assert_eq!(first, EstablishAction::DialWebSocket("ws://127.0.0.1:9".to_string()));
    assert_eq!(
        machine.step(EstablishEvent::WebSocketFailed("no route".to_string())),
        Some(EstablishAction::Fail("no route".to_string()))
    );
    assert!(machine.is_finished());
}

#[test]
fn failed_server_handshake_fails_at_once() {
    let (mut machine, _) =
        Establishment::<u32>::begin(&accepted(), &destination("127.0.0.1:22"));
    assert_eq!(machine.step(EstablishEvent::WebSocketFailed(7)), Some(EstablishAction::Fail(7)));
    assert!(machine.is_finished());
}

#[test]
fn event_that_answers_nothing_is_refused() {
    let (mut machine, _) = Establishment::<u32>::begin(
        &destination("ws://127.0.0.1:9002"),
        &destination("127.0.0.1:22"),
    );
    assert_eq!(machine.step(EstablishEvent::TcpConnected), None);
    assert_eq!(machine.step(EstablishEvent::TcpFailed(1)), None);
    assert_eq!(machine.step(EstablishEvent::CloseSent), None);
    assert_eq!(machine.step(EstablishEvent::Drained), None);
    assert_eq!(machine.step(EstablishEvent::TcpReleased), None);
    // The refused events changed nothing: the dial is still pending.
    assert_eq!(
        machine.step(EstablishEvent::WebSocketReady),
        Some(EstablishAction::DialTcp("127.0.0.1:22".to_string()))
    );
}

#[test]
fn ended_establishment_takes_no_event() {
    let (mut machine, _) = Establishment::<u32>::begin(
        &destination("ws://127.0.0.1:9002"),
        &destination("127.0.0.1:22"),
    );
    machine.step(EstablishEvent::WebSocketReady);
    machine.step(EstablishEvent::TcpConnected);
    assert_eq!(machine.step(EstablishEvent::WebSocketReady), None);
    assert_eq!(machine.step(EstablishEvent::TcpConnected), None);
    assert_eq!(machine.step(EstablishEvent::TcpFailed(3)), None);
    assert!(machine.is_established());
}

#[test]
fn close_frame_is_sent_once_however_the_send_ends() {
    let (mut machine, _) = Establishment::<u32>::begin(
        &destination("ws://127.0.0.1:9002"),
        &destination("127.0.0.1:1"),
    );
    machine.step(EstablishEvent::WebSocketReady);
    machine.step(EstablishEvent::TcpFailed(5));
    assert_eq!(machine.step(EstablishEvent::TcpFailed(6)), None);
    assert_eq!(machine.step(EstablishEvent::CloseSent), Some(EstablishAction::Drain));
    assert_eq!(machine.step(EstablishEvent::CloseSent), None);
    assert_eq!(machine.step(EstablishEvent::Drained), Some(EstablishAction::Fail(5)));
}
