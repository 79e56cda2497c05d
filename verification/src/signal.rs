//! One-shot stop signals: how a pump tells its sibling that it has stopped.
//!
//! A signal is sent at most once and never waited on by its sender. If the
//! sibling has already returned and dropped its receiving end, sending is a
//! silent no-op.

use tokio::sync::oneshot::{Receiver, Sender};
use vstd::prelude::*;

verus! {

/// `tokio::sync::oneshot::Sender`, the sending end of a one-shot channel,
/// carried as an opaque value.
#[verifier::external_type_specification]
#[verifier::external_body]
#[verifier::reject_recursive_types(T)]
pub struct ExSender<T>(tokio::sync::oneshot::Sender<T>);

/// `tokio::sync::oneshot::Receiver`, the receiving end of a one-shot channel,
/// carried as an opaque value.
#[verifier::external_type_specification]
#[verifier::external_body]
#[verifier::reject_recursive_types(T)]
pub struct ExReceiver<T>(tokio::sync::oneshot::Receiver<T>);

/// `tokio::sync::oneshot::error::RecvError`, which a receiving end yields when
/// its sender is dropped unused; declared because the receiving end mentions it.
#[verifier::external_type_specification]
#[verifier::external_body]
pub struct ExRecvError(tokio::sync::oneshot::error::RecvError);

/// Calls `tokio::sync::oneshot::channel` to make a fresh one-shot channel.
/// Nothing is claimed of the two ends.
#[verifier::external_body]
fn stop_channel() -> (ends: (Sender<bool>, Receiver<bool>)) {
    tokio::sync::oneshot::channel::<bool>()
}

/// Calls `tokio::sync::oneshot::Sender::send`, which consumes the sender,
/// never waits and never panics. It returns `Ok` if the value was handed to a
/// receiving end that still exists, and otherwise gives the value back. Which
/// of the two happens depends on the receiver, so nothing is claimed of it.
#[verifier::external_body]
fn send_stop(sender: Sender<bool>, value: bool) -> (outcome: Result<(), bool>)
    ensures
        outcome matches Err(back) ==> back == value,
{
    sender.send(value)
}

/// What has become of a stop signal.
#[derive(Clone, Copy, Debug, PartialEq, Eq, Structural)]
pub enum Signal {
    /// Not sent yet.
    Pending,
    /// Sent, and handed to the sibling's receiving end.
    Delivered,
    /// Sent after the sibling had dropped its receiving end: nobody will see it.
    Dropped,
}

/// What becomes of a signal when it is sent.
pub open spec fn sent(delivered: bool) -> Signal {
    if delivered {
        Signal::Delivered
    } else {
        Signal::Dropped
    }
}

/// The sending end of a stop signal, which can be raised once.
pub struct StopSignal {
    /// The channel's sending end, until the signal is raised.
    sender: Option<Sender<bool>>,
    /// Whether the signal, once raised, reached the receiving end.
    delivered: bool,
}

impl View for StopSignal {
    type V = Signal;

    closed spec fn view(&self) -> Signal {
        if self.sender is Some {
            Signal::Pending
        } else {
            sent(self.delivered)
        }
    }
}

impl StopSignal {
    /// Makes a signal that has not been raised, and the receiving end on which
    /// the sibling waits for it.
    pub fn new() -> (ends: (StopSignal, Receiver<bool>))
        ensures
            ends.0@ is Pending,
    {
        let (sender, receiver) = stop_channel();
        (StopSignal { sender: Some(sender), delivered: false }, receiver)
    }

    /// What has become of the signal.
    pub fn state(&self) -> (state: Signal)
        ensures
            state == self@,
    {
        if self.sender.is_some() {
            Signal::Pending
        } else if self.delivered {
            Signal::Delivered
        } else {
            Signal::Dropped
        }
    }

    /// Raises the signal. A pending signal is sent, whether or not anybody is
    /// left to receive it; a signal that was raised before is left as it is.
    /// Raising never fails and never waits.
    pub fn raise(&mut self) -> (state: Signal)
        ensures
            state == final(self)@,
            !(final(self)@ is Pending),
            !(old(self)@ is Pending) ==> final(self)@ == old(self)@,
    {
        match self.sender.take() {
            Some(sender) => {
                self.delivered = match send_stop(sender, true) {
                    Ok(()) => true,
                    Err(_) => false,
                };
            },
            None => {},
        }
        self.state()
    }
}

} // verus!
