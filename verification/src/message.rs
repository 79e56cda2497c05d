//! WebSocket messages as the relay sees them.

use vstd::prelude::*;

verus! {

/// Close code that reports a failure on the bridge's side (RFC 6455: internal error).
pub const CLOSE_CODE_ERROR: u16 = 1011;

/// Code and reason carried by a close message.
#[derive(Debug, PartialEq, Eq)]
pub struct CloseFrame {
    pub code: u16,
    pub reason: String,
}

/// Mathematical value of a [`CloseFrame`].
pub struct CloseFrameView {
    pub code: u16,
    pub reason: Seq<char>,
}

impl View for CloseFrame {
    type V = CloseFrameView;

    open spec fn view(&self) -> CloseFrameView {
        CloseFrameView { code: self.code, reason: self.reason@ }
    }
}

/// The close frame that tells a WebSocket peer that the TCP destination could
/// not be reached.
pub open spec fn unreachable_frame() -> CloseFrameView {
    CloseFrameView { code: CLOSE_CODE_ERROR, reason: "Could not connect to destination"@ }
}

impl CloseFrame {
    /// Builds the frame sent when dialing the TCP destination failed.
    pub fn destination_unreachable() -> (frame: CloseFrame)
        ensures
            frame@ == unreachable_frame(),
    {
        CloseFrame {
            code: CLOSE_CODE_ERROR,
            reason: String::from_str("Could not connect to destination"),
        }
    }
}

/// A WebSocket message, reduced to what the relay distinguishes.
#[derive(Debug, PartialEq, Eq)]
pub enum WsMessage {
    /// Application data.
    Binary(Vec<u8>),
    /// Intentional termination, with an optional code and reason.
    Close(Option<CloseFrame>),
    /// Text, ping, pong or a raw frame: the relay forwards none of these.
    Other,
}

/// Mathematical value of a [`WsMessage`].
pub enum WsMessageView {
    Binary(Seq<u8>),
    Close(Option<CloseFrameView>),
    Other,
}

impl View for WsMessage {
    type V = WsMessageView;

    open spec fn view(&self) -> WsMessageView {
        match self {
            WsMessage::Binary(data) => WsMessageView::Binary(data@),
            WsMessage::Close(Some(frame)) => WsMessageView::Close(Some(frame@)),
            WsMessage::Close(None) => WsMessageView::Close(None),
            WsMessage::Other => WsMessageView::Other,
        }
    }
}

} // verus!
