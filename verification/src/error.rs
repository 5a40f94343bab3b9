//! What can go wrong while frames are decoded.  Every error is fatal to its
//! connection: framing cannot find its place in the stream again.

use vstd::prelude::*;

verus! {

/// The rule of the framing protocol that a peer's frame broke.
#[derive(Clone, Copy, Debug, PartialEq, Eq, Structural)]
pub enum BadFrame {
    ReservedBitsSet,
    MaskedFrame,
    UnmaskedFrame,
    FrameTooLarge,
    LastMessageIncomplete,
    UnexpectedContinuationFrame,
    FragmentedControlFrame,
    IllegalCloseCode,
    UnknownOpcode,
}

/// Where in a frame text was expected.
#[derive(Clone, Copy, Debug, PartialEq, Eq, Structural)]
pub enum Utf8Context {
    TextMessage,
    CloseReason,
}

#[derive(Clone, Copy, Debug, PartialEq, Eq, Structural)]
pub enum Error {
    /// The peer sent a frame that the protocol does not allow.
    BadFrame(BadFrame),
    /// The peer sent text that is not UTF-8.  `valid_up_to` is the length of
    /// the longest prefix of that text which is.
    Utf8 { context: Utf8Context, valid_up_to: usize },
}

/// Why a message was not sent.
#[derive(Clone, Copy, Debug, PartialEq, Eq, Structural)]
pub enum SendError {
    /// The close handshake has begun, or the connection is closed.
    Closed,
    /// The message does not fit one frame.
    TooLarge,
}

impl BadFrame {
    /// The short description of the broken rule, as a sequence of characters.
    pub open spec fn reason_text(self) -> Seq<char> {
        match self {
            BadFrame::ReservedBitsSet => "reserved bits set"@,
            BadFrame::MaskedFrame => "masked frame"@,
            BadFrame::UnmaskedFrame => "unmasked frame"@,
            BadFrame::FrameTooLarge => "frame too large"@,
            BadFrame::LastMessageIncomplete => "last message incomplete"@,
            BadFrame::UnexpectedContinuationFrame => "unexpected continuation frame"@,
            BadFrame::FragmentedControlFrame => "fragmented control frame"@,
            BadFrame::IllegalCloseCode => "illegal close code"@,
            BadFrame::UnknownOpcode => "unknown opcode"@,
        }
    }

    /// A short description of the broken rule.
    pub fn reason(&self) -> (text: &'static str)
        ensures
            text@ == self.reason_text(),
    {
        match self {
            BadFrame::ReservedBitsSet => "reserved bits set",
            BadFrame::MaskedFrame => "masked frame",
            BadFrame::UnmaskedFrame => "unmasked frame",
            BadFrame::FrameTooLarge => "frame too large",
            BadFrame::LastMessageIncomplete => "last message incomplete",
            BadFrame::UnexpectedContinuationFrame => "unexpected continuation frame",
            BadFrame::FragmentedControlFrame => "fragmented control frame",
            BadFrame::IllegalCloseCode => "illegal close code",
            BadFrame::UnknownOpcode => "unknown opcode",
        }
    }
}

impl Utf8Context {
    /// The name of the place, as a sequence of characters.
    pub open spec fn context_text(self) -> Seq<char> {
        match self {
            Utf8Context::TextMessage => "text message"@,
            Utf8Context::CloseReason => "close reason"@,
        }
    }

    /// The name of the place where text was expected.
    pub fn context(&self) -> (text: &'static str)
        ensures
            text@ == self.context_text(),
    {
        match self {
            Utf8Context::TextMessage => "text message",
            Utf8Context::CloseReason => "close reason",
        }
    }
}

} // verus!
