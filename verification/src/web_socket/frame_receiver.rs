//! The receiving side of the frame engine: checks one buffered frame
//! against the rules of the protocol, removes its mask, puts fragmented
//! messages together and says what the frame asks of the connection.

use crate::error::{BadFrame, Error, Utf8Context};
use crate::web_socket::close::{parse_close_payload, parsed_close_payload, CloseStatus};
use crate::web_socket::frame::{
    fin_bit, is_control, mask_bit, opcode_bits, reserved_bits, MaskDirection, FIN, MASK,
    MAX_CONTROL_FRAME_DATA_LENGTH, OPCODE_BINARY, OPCODE_CLOSE, OPCODE_CONTINUATION, OPCODE_PING,
    OPCODE_PONG, OPCODE_TEXT,
};
use crate::web_socket::mask::{mask_in_place, mask_region};
use crate::web_socket::message::{StreamMessage, StreamMessageView};
use crate::web_socket::text::{decode_text, decoded_text};
use vstd::prelude::*;

verus! {

/// The kind of message whose fragments are being collected, if any.
#[derive(Clone, Copy, Debug, PartialEq, Eq, Structural)]
pub enum MessageInProgress {
    Nothing,
    Text,
    Binary,
}

/// Whether the frame just received was a close frame.
#[derive(Clone, Copy, Debug, PartialEq, Eq, Structural)]
pub enum ReceivedCloseFrame {
    Yes,
    No,
}

/// What an accepted frame asks of the connection, in the order in which it
/// is to be done: first `pong`, then `message`.
#[derive(Clone, Debug, PartialEq, Eq)]
pub struct Received {
    /// Whether the frame was a close frame, so that the close handshake is
    /// to be driven on.
    pub close_frame: ReceivedCloseFrame,
    /// The payload of the pong frame to send to the peer at once.
    pub pong: Option<Vec<u8>>,
    /// The message to deliver to the consumer.
    pub message: Option<StreamMessage>,
}

/// What a `Received` holds.
pub struct ReceivedView {
    pub close_frame: ReceivedCloseFrame,
    pub pong: Option<Seq<u8>>,
    pub message: Option<StreamMessageView>,
}

impl View for Received {
    type V = ReceivedView;

    open spec fn view(&self) -> ReceivedView {
        ReceivedView {
            close_frame: self.close_frame,
            pong: match self.pong {
                Some(payload) => Some(payload@),
                None => None,
            },
            message: match self.message {
                Some(message) => Some(message@),
                None => None,
            },
        }
    }
}

/// Checks frames and puts messages together, for one connection.
pub struct FrameReceiver {
    mask_direction: MaskDirection,
    message_reassembly_buffer: Vec<u8>,
    message_in_progress: MessageInProgress,
}

/// What a `FrameReceiver` holds.
pub struct FrameReceiverView {
    pub mask_direction: MaskDirection,
    /// The kind of the message that is being collected.
    pub message_in_progress: MessageInProgress,
    /// The payloads collected so far for that message, in order.
    pub reassembled: Seq<u8>,
}

/// The receiver after a frame, and what the frame gave.
pub struct Outcome {
    pub receiver: FrameReceiverView,
    pub result: Result<ReceivedView, Error>,
}

/// The receiver and the frame buffer after a frame, and what the frame
/// gave.
pub struct FrameOutcome {
    pub receiver: FrameReceiverView,
    pub buffer: Seq<u8>,
    pub result: Result<ReceivedView, Error>,
}

/// A receiver that has seen no frame yet.
pub open spec fn fresh_receiver(mask_direction: MaskDirection) -> FrameReceiverView {
    FrameReceiverView {
        mask_direction,
        message_in_progress: MessageInProgress::Nothing,
        reassembled: Seq::empty(),
    }
}

/// The buffer holds a frame of these lengths: its first two bytes, a
/// masking key before the payload if the frame says it is masked, and the
/// whole payload.
pub open spec fn frame_is_buffered(buffer: Seq<u8>, header_length: int, payload_length: int) -> bool {
    &&& buffer.len() >= 2
    &&& 0 <= header_length
    &&& 0 <= payload_length
    &&& header_length + payload_length <= buffer.len()
    &&& mask_bit(buffer[1]) ==> header_length >= 4
}

/// The buffer after the payload was unmasked in place.  The key is the
/// four bytes before the payload, as they were before.
pub open spec fn unmasked_buffer(buffer: Seq<u8>, header_length: int, payload_length: int) -> Seq<
    u8,
> {
    if mask_bit(buffer[1]) {
        mask_region(
            buffer,
            header_length,
            payload_length,
            buffer.subrange(header_length - 4, header_length),
        )
    } else {
        buffer
    }
}

/// The payload of a buffered frame, unmasked.
pub open spec fn unmasked_payload(buffer: Seq<u8>, header_length: int, payload_length: int) -> Seq<
    u8,
> {
    unmasked_buffer(buffer, header_length, payload_length).subrange(
        header_length,
        header_length + payload_length,
    )
}

/// A frame turned down: the receiver stays as it was.
pub open spec fn rejected(receiver: FrameReceiverView, reason: BadFrame) -> Outcome {
    Outcome { receiver, result: Err(Error::BadFrame(reason)) }
}

/// A frame that asks nothing of the connection.
pub open spec fn nothing_received() -> ReceivedView {
    ReceivedView { close_frame: ReceivedCloseFrame::No, pong: None, message: None }
}

/// A frame that completes `message`.
pub open spec fn message_received(message: StreamMessageView) -> ReceivedView {
    ReceivedView { close_frame: ReceivedCloseFrame::No, pong: None, message: Some(message) }
}

/// A fragment of a text message.  Its payload joins what was collected.
/// The last fragment completes the message, which must then be UTF-8 as a
/// whole; if it is not, what was collected stays.
pub open spec fn text_fragment(receiver: FrameReceiverView, payload: Seq<u8>, fin: bool) -> Outcome {
    let reassembled = receiver.reassembled + payload;
    if !fin {
        Outcome {
            receiver: FrameReceiverView {
                message_in_progress: MessageInProgress::Text,
                reassembled,
                ..receiver
            },
            result: Ok(nothing_received()),
        }
    } else {
        match decoded_text(reassembled, Utf8Context::TextMessage) {
            Ok(text) => Outcome {
                receiver: fresh_receiver(receiver.mask_direction),
                result: Ok(message_received(StreamMessageView::Text(text))),
            },
            Err(error) => Outcome {
                receiver: FrameReceiverView { reassembled, ..receiver },
                result: Err(error),
            },
        }
    }
}

/// A fragment of a binary message.  Its payload joins what was collected;
/// the last fragment completes the message.
pub open spec fn binary_fragment(receiver: FrameReceiverView, payload: Seq<u8>, fin: bool) -> Outcome {
    let reassembled = receiver.reassembled + payload;
    if !fin {
        Outcome {
            receiver: FrameReceiverView {
                message_in_progress: MessageInProgress::Binary,
                reassembled,
                ..receiver
            },
            result: Ok(nothing_received()),
        }
    } else {
        Outcome {
            receiver: fresh_receiver(receiver.mask_direction),
            result: Ok(message_received(StreamMessageView::Binary(reassembled))),
        }
    }
}

/// A continuation frame goes on with the message in progress, and is
/// turned down when there is none.
pub open spec fn continuation_frame(receiver: FrameReceiverView, payload: Seq<u8>, fin: bool) -> Outcome {
    match receiver.message_in_progress {
        MessageInProgress::Nothing => rejected(receiver, BadFrame::UnexpectedContinuationFrame),
        MessageInProgress::Text => text_fragment(receiver, payload, fin),
        MessageInProgress::Binary => binary_fragment(receiver, payload, fin),
    }
}

/// A ping is answered by a pong with the same payload, and delivered.
pub open spec fn ping_frame(receiver: FrameReceiverView, payload: Seq<u8>) -> Outcome {
    Outcome {
        receiver,
        result: Ok(
            ReceivedView {
                close_frame: ReceivedCloseFrame::No,
                pong: Some(payload),
                message: Some(StreamMessageView::Ping(payload)),
            },
        ),
    }
}

/// A close frame is delivered with its code and reason, no reply having
/// been sent yet, and reported as a close frame.
pub open spec fn close_frame(receiver: FrameReceiverView, payload: Seq<u8>) -> Outcome {
    match parsed_close_payload(payload) {
        Ok(status) => Outcome {
            receiver,
            result: Ok(
                ReceivedView {
                    close_frame: ReceivedCloseFrame::Yes,
                    pong: None,
                    message: Some(
                        StreamMessageView::Close {
                            code: status.code,
                            reason: status.reason,
                            reply_sent: false,
                        },
                    ),
                },
            ),
        },
        Err(error) => Outcome { receiver, result: Err(error) },
    }
}

/// What a frame with this FIN flag, opcode and unmasked payload does to a
/// receiver.
pub open spec fn dispatched(receiver: FrameReceiverView, fin: bool, opcode: u8, payload: Seq<u8>) -> Outcome {
    if opcode == OPCODE_CONTINUATION {
        continuation_frame(receiver, payload, fin)
    } else if opcode == OPCODE_TEXT {
        if receiver.message_in_progress is Nothing {
            text_fragment(fresh_receiver(receiver.mask_direction), payload, fin)
        } else {
            rejected(receiver, BadFrame::LastMessageIncomplete)
        }
    } else if opcode == OPCODE_BINARY {
        if receiver.message_in_progress is Nothing {
            binary_fragment(fresh_receiver(receiver.mask_direction), payload, fin)
        } else {
            rejected(receiver, BadFrame::LastMessageIncomplete)
        }
    } else if opcode == OPCODE_PING || opcode == OPCODE_PONG || opcode == OPCODE_CLOSE {
        if !fin {
            rejected(receiver, BadFrame::FragmentedControlFrame)
        } else if opcode == OPCODE_PING {
            ping_frame(receiver, payload)
        } else if opcode == OPCODE_PONG {
            Outcome { receiver, result: Ok(message_received(StreamMessageView::Pong(payload))) }
        } else {
            close_frame(receiver, payload)
        }
    } else {
        rejected(receiver, BadFrame::UnknownOpcode)
    }
}

/// The rule that a frame breaks before its payload is looked at, if it
/// breaks one: reserved bits must be clear, the MASK flag must be as the
/// direction of the connection demands, and a control frame must be small.
pub open spec fn header_fault(
    mask_direction: MaskDirection,
    buffer: Seq<u8>,
    payload_length: int,
) -> Option<BadFrame> {
    if reserved_bits(buffer[0]) != 0 {
        Some(BadFrame::ReservedBitsSet)
    } else if mask_bit(buffer[1]) && mask_direction is Transmit {
        Some(BadFrame::MaskedFrame)
    } else if !mask_bit(buffer[1]) && mask_direction is Receive {
        Some(BadFrame::UnmaskedFrame)
    } else if is_control(opcode_bits(buffer[0])) && payload_length > MAX_CONTROL_FRAME_DATA_LENGTH {
        Some(BadFrame::FrameTooLarge)
    } else {
        None
    }
}

/// What receiving the buffered frame does: to the receiver, to the buffer,
/// and what it gives.  A frame with a fault in its header changes nothing.
/// Any other has its payload unmasked in place, and is then dealt with by
/// its opcode.
pub open spec fn received_frame(
    receiver: FrameReceiverView,
    buffer: Seq<u8>,
    header_length: int,
    payload_length: int,
) -> FrameOutcome {
    match header_fault(receiver.mask_direction, buffer, payload_length) {
        Some(reason) => FrameOutcome {
            receiver,
            buffer,
            result: Err(Error::BadFrame(reason)),
        },
        None => {
            let outcome = dispatched(
                receiver,
                fin_bit(buffer[0]),
                opcode_bits(buffer[0]),
                unmasked_payload(buffer, header_length, payload_length),
            );
            FrameOutcome {
                receiver: outcome.receiver,
                buffer: unmasked_buffer(buffer, header_length, payload_length),
                result: outcome.result,
            }
        },
    }
}

/// Whether `result`, as a function returned it, is what `expected` says.
pub open spec fn gives<T: View, V>(result: Result<T, Error>, expected: Result<V, Error>) -> bool
    where T: View<V = V>
{
    match result {
        Ok(value) => expected == Ok::<V, Error>(value@),
        Err(error) => expected == Err::<V, Error>(error),
    }
}

impl View for FrameReceiver {
    type V = FrameReceiverView;

    closed spec fn view(&self) -> FrameReceiverView {
        FrameReceiverView {
            mask_direction: self.mask_direction,
            message_in_progress: self.message_in_progress,
            reassembled: self.message_reassembly_buffer@,
        }
    }
}

impl FrameReceiver {
    /// A receiver for a connection on which masked frames travel in
    /// `mask_direction`.
    pub fn new(mask_direction: MaskDirection) -> (receiver: Self)
        ensures
            receiver@ == fresh_receiver(mask_direction),
    {
        Self {
            mask_direction,
            message_in_progress: MessageInProgress::Nothing,
            message_reassembly_buffer: Vec::new(),
        }
    }

    /// The direction of masked frames on the connection.
    pub fn mask_direction(&self) -> (mask_direction: MaskDirection)
        ensures
            mask_direction == self@.mask_direction,
    {
        self.mask_direction
    }

    /// Receives the frame that lies in `frame_reassembly_buffer`, whose
    /// header is `header_length` bytes long and whose payload is
    /// `payload_length` bytes long.  The payload is unmasked in place.
    pub fn receive_frame(
        &mut self,
        frame_reassembly_buffer: &mut [u8],
        header_length: usize,
        payload_length: usize,
    ) -> (result: Result<Received, Error>)
        requires
            frame_is_buffered(
                old(frame_reassembly_buffer)@,
                header_length as int,
                payload_length as int,
            ),
        ensures
            ({
                let outcome = received_frame(
                    old(self)@,
                    old(frame_reassembly_buffer)@,
                    header_length as int,
                    payload_length as int,
                );
                &&& final(self)@ == outcome.receiver
                &&& final(frame_reassembly_buffer)@ == outcome.buffer
                &&& gives(result, outcome.result)
            }),
    {
        let fin = (frame_reassembly_buffer[0] & FIN) != 0;

        // No reserved bit may be set.
        let reserved_bits = (frame_reassembly_buffer[0] >> 4) & 0x07;
        if reserved_bits != 0 {
            return Err(Error::BadFrame(BadFrame::ReservedBitsSet));
        }

        // The MASK flag must be as the direction of the connection demands.
        let mask = (frame_reassembly_buffer[1] & MASK) != 0;
        match (mask, self.mask_direction) {
            (true, MaskDirection::Transmit) => {
                return Err(Error::BadFrame(BadFrame::MaskedFrame));
            },
            (false, MaskDirection::Receive) => {
                return Err(Error::BadFrame(BadFrame::UnmaskedFrame));
            },
            _ => (),
        }

        // A control frame must have a small payload.
        let opcode = frame_reassembly_buffer[0] & 0x0F;
        if (opcode & 0x08) != 0 && payload_length > MAX_CONTROL_FRAME_DATA_LENGTH {
            return Err(Error::BadFrame(BadFrame::FrameTooLarge));
        }

        // Take the mask off the payload.  The key is copied out first: it
        // lies in the buffer that is about to change.
        if mask {
            let mask_bytes: [u8; 4] = [
                frame_reassembly_buffer[header_length - 4],
                frame_reassembly_buffer[header_length - 3],
                frame_reassembly_buffer[header_length - 2],
                frame_reassembly_buffer[header_length - 1],
            ];
            assert(mask_bytes@ =~= old(frame_reassembly_buffer)@.subrange(
                header_length - 4,
                header_length as int,
            ));
            mask_in_place(frame_reassembly_buffer, header_length, payload_length, mask_bytes);
        }
        let payload = &frame_reassembly_buffer[header_length..header_length + payload_length];

        // Deal with the payload as the opcode demands.
        match opcode {
            OPCODE_CONTINUATION => {
                let message = self.receive_frame_continuation(payload, fin)?;
                Ok(Received { close_frame: ReceivedCloseFrame::No, pong: None, message })
            },
            OPCODE_TEXT => {
                if let MessageInProgress::Nothing = self.message_in_progress {
                    self.message_reassembly_buffer.clear();
                    let message = self.receive_frame_text(payload, fin)?;
                    Ok(Received { close_frame: ReceivedCloseFrame::No, pong: None, message })
                } else {
                    Err(Error::BadFrame(BadFrame::LastMessageIncomplete))
                }
            },
            OPCODE_BINARY => {
                if let MessageInProgress::Nothing = self.message_in_progress {
                    self.message_reassembly_buffer.clear();
                    let message = self.receive_frame_binary(payload, fin);
                    Ok(Received { close_frame: ReceivedCloseFrame::No, pong: None, message })
                } else {
                    Err(Error::BadFrame(BadFrame::LastMessageIncomplete))
                }
            },
            OPCODE_PING => {
                if !fin {
                    return Err(Error::BadFrame(BadFrame::FragmentedControlFrame));
                }
                Ok(Self::receive_frame_ping(payload))
            },
            OPCODE_PONG => {
                if !fin {
                    return Err(Error::BadFrame(BadFrame::FragmentedControlFrame));
                }
                Ok(
                    Received {
                        close_frame: ReceivedCloseFrame::No,
                        pong: None,
                        message: Some(StreamMessage::Pong(copy_of(payload))),
                    },
                )
            },
            OPCODE_CLOSE => {
                if !fin {
                    return Err(Error::BadFrame(BadFrame::FragmentedControlFrame));
                }
                let message = Self::receive_frame_close(payload)?;
                Ok(
                    Received {
                        close_frame: ReceivedCloseFrame::Yes,
                        pong: None,
                        message: Some(message),
                    },
                )
            },
            _ => Err(Error::BadFrame(BadFrame::UnknownOpcode)),
        }
    }

    fn receive_frame_binary(&mut self, payload: &[u8], fin: bool) -> (message: Option<
        StreamMessage,
    >)
        ensures
            ({
                let outcome = binary_fragment(old(self)@, payload@, fin);
                &&& final(self)@ == outcome.receiver
                &&& outcome.result == Ok::<ReceivedView, Error>(
                    ReceivedView {
                        close_frame: ReceivedCloseFrame::No,
                        pong: None,
                        message: match message {
                            Some(message) => Some(message@),
                            None => None,
                        },
                    },
                )
            }),
    {
        self.message_reassembly_buffer.extend_from_slice(payload);
        assert(self.message_reassembly_buffer@ == old(self)@.reassembled + payload@);
        if fin {
            let mut message = Vec::new();
            std::mem::swap(&mut message, &mut self.message_reassembly_buffer);
            self.message_in_progress = MessageInProgress::Nothing;
            Some(StreamMessage::Binary(message))
        } else {
            self.message_in_progress = MessageInProgress::Binary;
            None
        }
    }

    fn receive_frame_close(payload: &[u8]) -> (message: Result<StreamMessage, Error>)
        ensures
            match message {
                Ok(message) => parsed_close_payload(payload@) matches Ok(status)
                    && message@ == (StreamMessageView::Close {
                    code: status.code,
                    reason: status.reason,
                    reply_sent: false,
                }),
                Err(error) => parsed_close_payload(payload@) == Err::<CloseStatus, Error>(error),
            },
    {
        let (code, reason) = parse_close_payload(payload)?;
        Ok(StreamMessage::Close { code, reason, reply_sent: false })
    }

    fn receive_frame_continuation(&mut self, payload: &[u8], fin: bool) -> (message: Result<
        Option<StreamMessage>,
        Error,
    >)
        ensures
            ({
                let outcome = continuation_frame(old(self)@, payload@, fin);
                &&& final(self)@ == outcome.receiver
                &&& match message {
                    Ok(message) => outcome.result == Ok::<ReceivedView, Error>(
                        ReceivedView {
                            close_frame: ReceivedCloseFrame::No,
                            pong: None,
                            message: match message {
                                Some(message) => Some(message@),
                                None => None,
                            },
                        },
                    ),
                    Err(error) => outcome.result == Err::<ReceivedView, Error>(error),
                }
            }),
    {
        match self.message_in_progress {
            MessageInProgress::Nothing => Err(
                Error::BadFrame(BadFrame::UnexpectedContinuationFrame),
            ),
            MessageInProgress::Text => self.receive_frame_text(payload, fin),
            MessageInProgress::Binary => Ok(self.receive_frame_binary(payload, fin)),
        }
    }

    fn receive_frame_ping(payload: &[u8]) -> (received: Received)
        ensures
            received@ == (ReceivedView {
                close_frame: ReceivedCloseFrame::No,
                pong: Some(payload@),
                message: Some(StreamMessageView::Ping(payload@)),
            }),
    {
        Received {
            close_frame: ReceivedCloseFrame::No,
            pong: Some(copy_of(payload)),
            message: Some(StreamMessage::Ping(copy_of(payload))),
        }
    }

    fn receive_frame_text(&mut self, payload: &[u8], fin: bool) -> (message: Result<
        Option<StreamMessage>,
        Error,
    >)
        ensures
            ({
                let outcome = text_fragment(old(self)@, payload@, fin);
                &&& final(self)@ == outcome.receiver
                &&& match message {
                    Ok(message) => outcome.result == Ok::<ReceivedView, Error>(
                        ReceivedView {
                            close_frame: ReceivedCloseFrame::No,
                            pong: None,
                            message: match message {
                                Some(message) => Some(message@),
                                None => None,
                            },
                        },
                    ),
                    Err(error) => outcome.result == Err::<ReceivedView, Error>(error),
                }
            }),
    {
        self.message_reassembly_buffer.extend_from_slice(payload);
        assert(self.message_reassembly_buffer@ == old(self)@.reassembled + payload@);
        if fin {
            let message = decode_text(
                self.message_reassembly_buffer.as_slice(),
                Utf8Context::TextMessage,
            )?;
            self.message_reassembly_buffer.clear();
            self.message_in_progress = MessageInProgress::Nothing;
            Ok(Some(StreamMessage::Text(message)))
        } else {
            self.message_in_progress = MessageInProgress::Text;
            Ok(None)
        }
    }
}

/// A vector with the bytes of `bytes`.
fn copy_of(bytes: &[u8]) -> (copy: Vec<u8>)
    ensures
        copy@ == bytes@,
{
    let mut copy: Vec<u8> = Vec::new();
    copy.extend_from_slice(bytes);
    copy
}

} // verus!
