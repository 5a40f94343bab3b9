//! One end of a connection: which frames to write and which messages to
//! hand on for every frame that arrives and every message to send, and the
//! state of the close handshake.  Reading and writing the connection, and
//! the timer of the handshake, are the caller's part.

pub mod close;
pub mod frame;
pub mod frame_receiver;
pub mod frame_sender;
pub mod guarantees;
pub mod mask;
pub mod message;
pub mod round_trip;
pub mod text;

use crate::error::{Error, SendError};
use crate::web_socket::close::{close_code_is_legal, is_legal_close_code, CLOSE_CODE_NORMAL};
use crate::web_socket::frame::{MaskDirection, SetFin, OPCODE_CLOSE, OPCODE_PONG};
use crate::web_socket::frame_receiver::{
    frame_is_buffered, fresh_receiver, received_frame, FrameReceiver, FrameReceiverView,
    ReceivedCloseFrame, ReceivedView,
};
use crate::web_socket::frame_sender::{
    encoded_frame, fits_one_frame, frame_content, key_used, FrameSender,
};
use crate::web_socket::message::{SinkMessage, SinkMessageView, StreamMessage, StreamMessageView};
use vstd::prelude::*;

verus! {

/// What the close handshake waits for.
#[derive(Clone, Copy, Debug, PartialEq, Eq, Structural)]
pub enum Awaited {
    /// This end sent a close frame; the peer's is awaited, or the timeout.
    PeerClose,
    /// The peer sent a close frame; the reply to it is yet to be written.
    LocalReply,
}

/// The state of a connection.
#[derive(Clone, Copy, Debug, PartialEq, Eq, Structural)]
pub enum ConnectionState {
    Open,
    Closing(Awaited),
    Closed,
}

/// What to do after a frame arrived, in this order: write `reply` to the
/// connection, then hand `deliver` to the consumer.
#[derive(Clone, Debug, PartialEq, Eq)]
pub struct Actions {
    /// A whole frame to write to the connection.
    pub reply: Option<Vec<u8>>,
    /// A message for the consumer.
    pub deliver: Option<StreamMessage>,
}

/// What an `Actions` holds.
pub struct ActionsView {
    pub reply: Option<Seq<u8>>,
    pub deliver: Option<StreamMessageView>,
}

impl View for Actions {
    type V = ActionsView;

    open spec fn view(&self) -> ActionsView {
        ActionsView {
            reply: match self.reply {
                Some(frame) => Some(frame@),
                None => None,
            },
            deliver: match self.deliver {
                Some(message) => Some(message@),
                None => None,
            },
        }
    }
}

/// What to do to send a message: write `frame` to the connection and, if
/// `await_close` is set, start the timer that bounds the wait for the
/// peer's close frame.
#[derive(Clone, Debug, PartialEq, Eq)]
pub struct Sending {
    pub frame: Vec<u8>,
    pub await_close: bool,
}

/// What a `Sending` holds.
pub struct SendingView {
    pub frame: Seq<u8>,
    pub await_close: bool,
}

impl View for Sending {
    type V = SendingView;

    open spec fn view(&self) -> SendingView {
        SendingView { frame: self.frame@, await_close: self.await_close }
    }
}

/// One end of a connection.
pub struct WebSocket {
    state: ConnectionState,
    frame_receiver: FrameReceiver,
}

/// What a `WebSocket` holds.
pub struct WebSocketView {
    pub state: ConnectionState,
    pub receiver: FrameReceiverView,
}

/// The connection and the frame buffer after a frame arrived, and what the
/// frame asks for.
pub struct Arrival {
    pub socket: WebSocketView,
    pub buffer: Seq<u8>,
    pub result: Result<ActionsView, Error>,
}

/// The connection after a message was given to send, and what sending it
/// takes.
pub struct Departure {
    pub socket: WebSocketView,
    pub result: Result<SendingView, SendError>,
}

/// A connection that was just set up.
pub open spec fn opened(mask_direction: MaskDirection) -> WebSocketView {
    WebSocketView { state: ConnectionState::Open, receiver: fresh_receiver(mask_direction) }
}

/// Whether frames that arrive are still looked at: until the peer's close
/// frame has arrived or the connection is closed.
pub open spec fn is_reading(state: ConnectionState) -> bool {
    state is Open || state == ConnectionState::Closing(Awaited::PeerClose)
}

/// The code that answers a close frame with this code: the same code where
/// it may stand in a close frame, and 1000 where the peer gave none.
pub open spec fn reply_code(code: u16) -> u16 {
    if is_legal_close_code(code as int) {
        code
    } else {
        CLOSE_CODE_NORMAL
    }
}

/// The payload of the close frame that answers a close frame with this
/// code.
pub open spec fn reply_payload(code: u16) -> Seq<u8> {
    seq![(reply_code(code) / 0x100) as u8, (reply_code(code) % 0x100) as u8]
}

/// What a frame that the receiver took asks of the connection.  A ping is
/// answered with a pong.  The peer's close frame ends the handshake if this
/// end began it; if not, it is answered with a close frame, and the
/// message is marked as answered.
pub open spec fn actions_for(
    state: ConnectionState,
    mask_direction: MaskDirection,
    received: ReceivedView,
    masking_key: Seq<u8>,
) -> ActionsView {
    if received.close_frame is Yes && state is Open {
        ActionsView {
            reply: match received.message {
                Some(StreamMessageView::Close { code, .. }) => Some(
                    encoded_frame(
                        true,
                        OPCODE_CLOSE,
                        reply_payload(code),
                        key_used(mask_direction, masking_key),
                    ),
                ),
                _ => None,
            },
            deliver: match received.message {
                Some(StreamMessageView::Close { code, reason, .. }) => Some(
                    StreamMessageView::Close { code, reason, reply_sent: true },
                ),
                other => other,
            },
        }
    } else {
        ActionsView {
            reply: match received.pong {
                Some(payload) => Some(
                    encoded_frame(
                        true,
                        OPCODE_PONG,
                        payload,
                        key_used(mask_direction, masking_key),
                    ),
                ),
                None => None,
            },
            deliver: received.message,
        }
    }
}

/// The state of the connection after a frame that the receiver took.
pub open spec fn state_after(state: ConnectionState, received: ReceivedView) -> ConnectionState {
    if received.close_frame is Yes {
        if state is Open {
            ConnectionState::Closing(Awaited::LocalReply)
        } else {
            ConnectionState::Closed
        }
    } else {
        state
    }
}

/// What the arrival of a frame does.  Once the peer's close frame has
/// arrived, or the connection is closed, a frame changes nothing and asks
/// for nothing.  Before that, a frame that the receiver turns down closes
/// the connection.
pub open spec fn arrived(
    socket: WebSocketView,
    buffer: Seq<u8>,
    header_length: int,
    payload_length: int,
    masking_key: Seq<u8>,
) -> Arrival {
    if !is_reading(socket.state) {
        Arrival { socket, buffer, result: Ok(ActionsView { reply: None, deliver: None }) }
    } else {
        let outcome = received_frame(socket.receiver, buffer, header_length, payload_length);
        match outcome.result {
            Ok(received) => Arrival {
                socket: WebSocketView {
                    state: state_after(socket.state, received),
                    receiver: outcome.receiver,
                },
                buffer: outcome.buffer,
                result: Ok(
                    actions_for(
                        socket.state,
                        socket.receiver.mask_direction,
                        received,
                        masking_key,
                    ),
                ),
            },
            Err(error) => Arrival {
                socket: WebSocketView {
                    state: ConnectionState::Closed,
                    receiver: outcome.receiver,
                },
                buffer: outcome.buffer,
                result: Err(error),
            },
        }
    }
}

/// What giving a message to send does.  Only an open connection sends, and
/// only what fits one frame.  A close message begins the close handshake.
pub open spec fn departed(socket: WebSocketView, message: SinkMessageView, masking_key: Seq<u8>) -> Departure {
    if !(socket.state is Open) {
        Departure { socket, result: Err(SendError::Closed) }
    } else if !fits_one_frame(message) {
        Departure { socket, result: Err(SendError::TooLarge) }
    } else {
        let closes = message is Close || message is CloseNoStatus;
        Departure {
            socket: WebSocketView {
                state: if closes {
                    ConnectionState::Closing(Awaited::PeerClose)
                } else {
                    socket.state
                },
                ..socket
            },
            result: Ok(
                SendingView {
                    frame: encoded_frame(
                        true,
                        frame_content(message).0,
                        frame_content(message).1,
                        key_used(socket.receiver.mask_direction, masking_key),
                    ),
                    await_close: closes,
                },
            ),
        }
    }
}

/// A frame that is turned down closes the connection, whatever its state
/// was.
pub proof fn lemma_error_closes(
    socket: WebSocketView,
    buffer: Seq<u8>,
    header_length: int,
    payload_length: int,
    masking_key: Seq<u8>,
)
    requires
        arrived(socket, buffer, header_length, payload_length, masking_key).result is Err,
    ensures
        arrived(socket, buffer, header_length, payload_length, masking_key).socket.state
            is Closed,
{
}

/// A closed connection stays closed: a frame that arrives changes nothing
/// and asks for nothing, and nothing is sent.
pub proof fn lemma_closed_is_final(
    socket: WebSocketView,
    buffer: Seq<u8>,
    header_length: int,
    payload_length: int,
    message: SinkMessageView,
    masking_key: Seq<u8>,
)
    requires
        socket.state is Closed,
    ensures
        arrived(socket, buffer, header_length, payload_length, masking_key) == (Arrival {
            socket,
            buffer,
            result: Ok(ActionsView { reply: None, deliver: None }),
        }),
        departed(socket, message, masking_key) == (Departure {
            socket,
            result: Err(SendError::Closed),
        }),
{
}

impl View for WebSocket {
    type V = WebSocketView;

    closed spec fn view(&self) -> WebSocketView {
        WebSocketView { state: self.state, receiver: self.frame_receiver@ }
    }
}

impl WebSocket {
    /// One end of a connection that was just set up, on which masked
    /// frames travel in `mask_direction`.
    pub fn new(mask_direction: MaskDirection) -> (socket: Self)
        ensures
            socket@ == opened(mask_direction),
    {
        Self { state: ConnectionState::Open, frame_receiver: FrameReceiver::new(mask_direction) }
    }

    /// The state of the connection.
    pub fn state(&self) -> (state: ConnectionState)
        ensures
            state == self@.state,
    {
        self.state
    }

    /// Takes the frame that lies in `buffer`, whose header is
    /// `header_length` bytes long and whose payload is `payload_length`
    /// bytes long, and says what it asks for.  `masking_key` masks the
    /// reply, where there is one and this end masks what it writes.  An
    /// error closes the connection.
    pub fn receive(
        &mut self,
        buffer: &mut [u8],
        header_length: usize,
        payload_length: usize,
        masking_key: [u8; 4],
    ) -> (result: Result<Actions, Error>)
        requires
            frame_is_buffered(old(buffer)@, header_length as int, payload_length as int),
        ensures
            ({
                let arrival = arrived(
                    old(self)@,
                    old(buffer)@,
                    header_length as int,
                    payload_length as int,
                    masking_key@,
                );
                &&& final(self)@ == arrival.socket
                &&& final(buffer)@ == arrival.buffer
                &&& match result {
                    Ok(actions) => arrival.result == Ok::<ActionsView, Error>(actions@),
                    Err(error) => arrival.result == Err::<ActionsView, Error>(error),
                }
            }),
    {
        let reading = match self.state {
            ConnectionState::Open => true,
            ConnectionState::Closing(Awaited::PeerClose) => true,
            _ => false,
        };
        if !reading {
            return Ok(Actions { reply: None, deliver: None });
        }
        let ghost outcome = received_frame(
            self.frame_receiver@,
            buffer@,
            header_length as int,
            payload_length as int,
        );
        let received = match self.frame_receiver.receive_frame(
            buffer,
            header_length,
            payload_length,
        ) {
            Ok(received) => received,
            Err(error) => {
                self.state = ConnectionState::Closed;
                return Err(error);
            },
        };
        let sender = FrameSender::new(self.frame_receiver.mask_direction());
        let was_open = match self.state {
            ConnectionState::Open => true,
            _ => false,
        };
        match received.close_frame {
            ReceivedCloseFrame::Yes => {
                if was_open {
                    self.state = ConnectionState::Closing(Awaited::LocalReply);
                    match received.message {
                        Some(StreamMessage::Close { code, reason, .. }) => {
                            let answer: u16 = if close_code_is_legal(code) {
                                code
                            } else {
                                CLOSE_CODE_NORMAL
                            };
                            let mut payload: Vec<u8> = Vec::new();
                            payload.push((answer / 0x100) as u8);
                            payload.push((answer % 0x100) as u8);
                            assert(payload@ =~= reply_payload(code));
                            let reply = sender.encode_frame(
                                SetFin::Yes,
                                OPCODE_CLOSE,
                                payload.as_slice(),
                                masking_key,
                            );
                            Ok(
                                Actions {
                                    reply: Some(reply),
                                    deliver: Some(
                                        StreamMessage::Close { code, reason, reply_sent: true },
                                    ),
                                },
                            )
                        },
                        other => Ok(Actions { reply: None, deliver: other }),
                    }
                } else {
                    self.state = ConnectionState::Closed;
                    Ok(Actions { reply: None, deliver: received.message })
                }
            },
            ReceivedCloseFrame::No => {
                let reply = match received.pong {
                    Some(payload) => Some(
                        sender.encode_frame(
                            SetFin::Yes,
                            OPCODE_PONG,
                            payload.as_slice(),
                            masking_key,
                        ),
                    ),
                    None => None,
                };
                Ok(Actions { reply, deliver: received.message })
            },
        }
    }

    /// Takes a message to send and says what sending it takes.
    /// `masking_key` masks the frame where this end masks what it writes.
    pub fn send(&mut self, message: &SinkMessage, masking_key: [u8; 4]) -> (result: Result<
        Sending,
        SendError,
    >)
        ensures
            ({
                let departure = departed(old(self)@, message@, masking_key@);
                &&& final(self)@ == departure.socket
                &&& match result {
                    Ok(sending) => departure.result == Ok::<SendingView, SendError>(sending@),
                    Err(error) => departure.result == Err::<SendingView, SendError>(error),
                }
            }),
    {
        match self.state {
            ConnectionState::Open => {},
            _ => {
                return Err(SendError::Closed);
            },
        }
        let sender = FrameSender::new(self.frame_receiver.mask_direction());
        let frame = match sender.encode_message(message, masking_key) {
            Some(frame) => frame,
            None => {
                return Err(SendError::TooLarge);
            },
        };
        let closes = match message {
            SinkMessage::Close { .. } => true,
            SinkMessage::CloseNoStatus => true,
            _ => false,
        };
        if closes {
            self.state = ConnectionState::Closing(Awaited::PeerClose);
        }
        Ok(Sending { frame, await_close: closes })
    }

    /// Takes note that the reply to the peer's close frame was written:
    /// the handshake is over.
    pub fn reply_written(&mut self)
        ensures
            final(self)@.receiver == old(self)@.receiver,
            final(self)@.state == if old(self)@.state == ConnectionState::Closing(
                Awaited::LocalReply,
            ) {
                ConnectionState::Closed
            } else {
                old(self)@.state
            },
    {
        match self.state {
            ConnectionState::Closing(Awaited::LocalReply) => {
                self.state = ConnectionState::Closed;
            },
            _ => {},
        }
    }

    /// Takes note that the wait for the close handshake to end is over:
    /// a connection that is closing is closed.
    pub fn timed_out(&mut self)
        ensures
            final(self)@.receiver == old(self)@.receiver,
            final(self)@.state == if old(self)@.state is Closing {
                ConnectionState::Closed
            } else {
                old(self)@.state
            },
    {
        match self.state {
            ConnectionState::Closing(_) => {
                self.state = ConnectionState::Closed;
            },
            _ => {},
        }
    }

    /// Takes note that reading or writing the connection failed: the
    /// connection is closed.
    pub fn failed(&mut self)
        ensures
            final(self)@.receiver == old(self)@.receiver,
            final(self)@.state == ConnectionState::Closed,
    {
        self.state = ConnectionState::Closed;
    }
}

} // verus!
