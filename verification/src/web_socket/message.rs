//! The messages that cross the library's boundary, in both directions.

use vstd::prelude::*;

verus! {

/// A message to send to the peer.
#[derive(Clone, Debug, PartialEq, Eq)]
pub enum SinkMessage {
    Text(String),
    Binary(Vec<u8>),
    Ping(Vec<u8>),
    Pong(Vec<u8>),
    /// Starts or answers the close handshake, giving a code and a reason.
    Close { code: u16, reason: String },
    /// Starts or answers the close handshake without code or reason.
    CloseNoStatus,
}

/// A message received from the peer.
#[derive(Clone, Debug, PartialEq, Eq)]
pub enum StreamMessage {
    Ping(Vec<u8>),
    Pong(Vec<u8>),
    Text(String),
    Binary(Vec<u8>),
    /// The peer's close frame.  `reply_sent` tells whether this endpoint
    /// answered it with a close frame of its own.
    Close { code: u16, reason: String, reply_sent: bool },
}

/// What a `SinkMessage` holds.
pub enum SinkMessageView {
    Text(Seq<char>),
    Binary(Seq<u8>),
    Ping(Seq<u8>),
    Pong(Seq<u8>),
    Close { code: u16, reason: Seq<char> },
    CloseNoStatus,
}

/// What a `StreamMessage` holds.
pub enum StreamMessageView {
    Ping(Seq<u8>),
    Pong(Seq<u8>),
    Text(Seq<char>),
    Binary(Seq<u8>),
    Close { code: u16, reason: Seq<char>, reply_sent: bool },
}

impl View for SinkMessage {
    type V = SinkMessageView;

    open spec fn view(&self) -> SinkMessageView {
        match self {
            SinkMessage::Text(text) => SinkMessageView::Text(text@),
            SinkMessage::Binary(bytes) => SinkMessageView::Binary(bytes@),
            SinkMessage::Ping(bytes) => SinkMessageView::Ping(bytes@),
            SinkMessage::Pong(bytes) => SinkMessageView::Pong(bytes@),
            SinkMessage::Close { code, reason } => SinkMessageView::Close {
                code: *code,
                reason: reason@,
            },
            SinkMessage::CloseNoStatus => SinkMessageView::CloseNoStatus,
        }
    }
}

impl View for StreamMessage {
    type V = StreamMessageView;

    open spec fn view(&self) -> StreamMessageView {
        match self {
            StreamMessage::Ping(bytes) => StreamMessageView::Ping(bytes@),
            StreamMessage::Pong(bytes) => StreamMessageView::Pong(bytes@),
            StreamMessage::Text(text) => StreamMessageView::Text(text@),
            StreamMessage::Binary(bytes) => StreamMessageView::Binary(bytes@),
            StreamMessage::Close { code, reason, reply_sent } => StreamMessageView::Close {
                code: *code,
                reason: reason@,
                reply_sent: *reply_sent,
            },
        }
    }
}

} // verus!
