use tokio::sync::oneshot::error::TryRecvError;
use websocket_bridge::signal::{Signal, StopSignal};

#[test]
fn new_signal_is_pending_and_nothing_was_sent() {
    let (signal, mut receiver) = StopSignal::new();
    assert_eq!(signal.state(), Signal::Pending);
    assert_eq!(receiver.try_recv(), Err(TryRecvError::Empty));
}

#[test]
fn raised_signal_reaches_a_waiting_sibling() {
    let (mut signal, mut receiver) = StopSignal::new();
    assert_eq!(signal.raise(), Signal::Delivered);
    assert_eq!(signal.state(), Signal::Delivered);
    assert_eq!(receiver.try_recv(), Ok(true));
}

#[test]
fn raising_after_the_sibling_has_gone_is_a_silent_no_op() {
    let (mut signal, receiver) = StopSignal::new();
    drop(receiver);
    assert_eq!(signal.raise(), Signal::Dropped);
    assert_eq!(signal.state(), Signal::Dropped);
}

#[test]
fn raising_twice_sends_once() {
    let (mut signal, mut receiver) = StopSignal::new();
    assert_eq!(signal.raise(), Signal::Delivered);
    assert_eq!(receiver.try_recv(), Ok(true));
    assert_eq!(signal.raise(), Signal::Delivered);
    assert_eq!(signal.state(), Signal::Delivered);
    assert_eq!(receiver.try_recv(), Err(TryRecvError::Closed));
}

#[test]
fn raising_again_after_a_dropped_signal_changes_nothing() {
    let (mut signal, receiver) = StopSignal::new();
    drop(receiver);
    assert_eq!(signal.raise(), Signal::Dropped);
    assert_eq!(signal.raise(), Signal::Dropped);
}
