//! What one endpoint writes, the other reads: a frame keeps its FIN flag,
//! its opcode and its payload on the way, and a message arrives as the
//! message that was sent.

use crate::error::Error;
use crate::web_socket::close::{
    is_legal_close_code, lemma_close_payload_round_trip, CLOSE_CODE_NO_STATUS,
};
use crate::web_socket::frame::{
    big_endian_16_bytes, big_endian_64_bytes, fin_bit, header_length_of, is_control,
    lemma_big_endian_16_round_trip, lemma_big_endian_64_round_trip, length_bits, mask_bit,
    opcode_bits, payload_length_of, reserved_bits, MaskDirection, MAX_CONTROL_FRAME_DATA_LENGTH,
    MAX_SHORT_EXTENDED_LENGTH, OPCODE_BINARY, OPCODE_TEXT,
};
use crate::web_socket::frame_receiver::{
    dispatched, frame_is_buffered, fresh_receiver, received_frame, unmasked_buffer,
    unmasked_payload, FrameOutcome, FrameReceiverView, ReceivedCloseFrame, ReceivedView,
};
use crate::web_socket::frame_sender::{
    encoded_frame, first_byte, fits_one_frame, frame_content, key_used, length_field,
};
use crate::web_socket::mask::{apply_mask, lemma_mask_involution, lemma_mask_region_parts};
use crate::web_socket::message::{SinkMessageView, StreamMessageView};
use vstd::prelude::*;
use vstd::utf8::*;

verus! {

proof fn lemma_first_byte_fields(opcode: u8)
    by (bit_vector)
    requires
        opcode <= 0x0F,
    ensures
        (0x80u8 | opcode) & 0x80 != 0,
        ((0x80u8 | opcode) >> 4) & 0x07 == 0,
        (0x80u8 | opcode) & 0x0F == opcode,
        opcode & 0x80 == 0,
        (opcode >> 4) & 0x07 == 0,
        opcode & 0x0F == opcode,
{
}

proof fn lemma_second_byte_fields(length: u8)
    by (bit_vector)
    requires
        length <= 0x7F,
    ensures
        (0x80u8 | length) & 0x80 != 0,
        (0x80u8 | length) & 0x7F == length,
        (0u8 | length) & 0x80 == 0,
        (0u8 | length) & 0x7F == length,
{
}

/// The direction of masked frames at the other end of a connection.
pub open spec fn other_end(mask_direction: MaskDirection) -> MaskDirection {
    if mask_direction is Transmit {
        MaskDirection::Receive
    } else {
        MaskDirection::Transmit
    }
}

/// The header of a written frame says what the frame was written from: its
/// FIN flag and opcode, no reserved bit, whether it is masked, and the
/// length of its payload.  The header is as long as its second byte says,
/// the payload follows it to the end of the frame, and the payload with the
/// mask taken off is the payload that was written.
pub proof fn lemma_frame_fields_round_trip(
    fin: bool,
    opcode: u8,
    payload: Seq<u8>,
    masking_key: Option<Seq<u8>>,
)
    requires
        opcode <= 0x0F,
        payload.len() < 0x1_0000_0000_0000_0000,
        masking_key matches Some(key) ==> key.len() == 4,
    ensures
        ({
            let frame = encoded_frame(fin, opcode, payload, masking_key);
            let header_length = header_length_of(frame[1]);
            let payload_length = payload.len() as int;
            &&& frame.len() == header_length + payload_length
            &&& fin_bit(frame[0]) == fin
            &&& reserved_bits(frame[0]) == 0
            &&& opcode_bits(frame[0]) == opcode
            &&& mask_bit(frame[1]) == (masking_key is Some)
            &&& payload_length_of(frame) == payload_length
            &&& frame_is_buffered(frame, header_length, payload_length)
            &&& unmasked_payload(frame, header_length, payload_length) == payload
        }),
{
    let length = payload.len() as int;
    let field = length_field(length, masking_key is Some);
    let frame = encoded_frame(fin, opcode, payload, masking_key);
    // The first two bytes.
    assert(frame[0] == first_byte(fin, opcode));
    assert(frame[1] == field[0]);
    lemma_first_byte_fields(opcode);
    lemma_second_byte_fields(
        if length <= MAX_CONTROL_FRAME_DATA_LENGTH {
            length as u8
        } else if length <= MAX_SHORT_EXTENDED_LENGTH {
            126u8
        } else {
            127u8
        },
    );
    // The extended length.
    if MAX_CONTROL_FRAME_DATA_LENGTH < length <= MAX_SHORT_EXTENDED_LENGTH {
        lemma_big_endian_16_round_trip(length);
        assert(frame.subrange(2, 4) =~= big_endian_16_bytes(length));
    } else if MAX_SHORT_EXTENDED_LENGTH < length {
        lemma_big_endian_64_round_trip(length);
        assert(frame.subrange(2, 10) =~= big_endian_64_bytes(length));
    }
    // Key and payload.
    let header_length = header_length_of(frame[1]);
    match masking_key {
        Some(key) => {
            assert(header_length == 1 + field.len() + 4);
            assert(frame.subrange(header_length - 4, header_length) =~= key);
            assert(frame.subrange(header_length, header_length + length) =~= apply_mask(
                payload,
                key,
            ));
            lemma_mask_region_parts(frame, header_length, length, key);
            lemma_mask_involution(payload, key);
        },
        None => {
            assert(header_length == 1 + field.len());
            assert(frame.subrange(header_length, header_length + length) =~= payload);
        },
    }
}

/// A frame written at one end of a connection and read at the other end is
/// dealt with as its FIN flag, its opcode and its payload demand: it is
/// turned down for no fault of its header, unless it is a control frame
/// that is too large.  This holds in both directions, of every key, and of
/// a receiver in any state.
pub proof fn lemma_frame_round_trip(
    sender: MaskDirection,
    receiver: FrameReceiverView,
    fin: bool,
    opcode: u8,
    payload: Seq<u8>,
    masking_key: Seq<u8>,
)
    requires
        receiver.mask_direction == other_end(sender),
        opcode <= 0x0F,
        payload.len() < 0x1_0000_0000_0000_0000,
        masking_key.len() == 4,
        is_control(opcode) ==> payload.len() <= MAX_CONTROL_FRAME_DATA_LENGTH,
    ensures
        ({
            let frame = encoded_frame(fin, opcode, payload, key_used(sender, masking_key));
            let header_length = header_length_of(frame[1]);
            let payload_length = payload.len() as int;
            let outcome = dispatched(receiver, fin, opcode, payload);
            &&& frame_is_buffered(frame, header_length, payload_length)
            &&& payload_length_of(frame) == payload_length
            &&& received_frame(receiver, frame, header_length, payload_length) == (FrameOutcome {
                receiver: outcome.receiver,
                buffer: unmasked_buffer(frame, header_length, payload_length),
                result: outcome.result,
            })
        }),
{
    lemma_frame_fields_round_trip(fin, opcode, payload, key_used(sender, masking_key));
}

/// The message that arrives when `message` was sent.
pub open spec fn delivered_form(message: SinkMessageView) -> StreamMessageView {
    match message {
        SinkMessageView::Text(text) => StreamMessageView::Text(text),
        SinkMessageView::Binary(bytes) => StreamMessageView::Binary(bytes),
        SinkMessageView::Ping(bytes) => StreamMessageView::Ping(bytes),
        SinkMessageView::Pong(bytes) => StreamMessageView::Pong(bytes),
        SinkMessageView::Close { code, reason } => StreamMessageView::Close {
            code,
            reason,
            reply_sent: false,
        },
        SinkMessageView::CloseNoStatus => StreamMessageView::Close {
            code: CLOSE_CODE_NO_STATUS,
            reason: Seq::empty(),
            reply_sent: false,
        },
    }
}

/// A message written as one frame at one end of a connection arrives at
/// the other end as the message that was sent, provided that it fits one
/// frame and, if it closes the connection with a code, that the code is a
/// legal one.  A ping also asks for a pong with its payload, and a close
/// message is reported as a close frame.  The receiver is ready for the
/// next message.
pub proof fn lemma_message_round_trip(
    sender: MaskDirection,
    message: SinkMessageView,
    masking_key: Seq<u8>,
)
    requires
        fits_one_frame(message),
        frame_content(message).1.len() < 0x1_0000_0000_0000_0000,
        message matches SinkMessageView::Close { code, .. } ==> is_legal_close_code(code as int),
        masking_key.len() == 4,
    ensures
        ({
            let (opcode, payload) = frame_content(message);
            let frame = encoded_frame(true, opcode, payload, key_used(sender, masking_key));
            let outcome = received_frame(
                fresh_receiver(other_end(sender)),
                frame,
                header_length_of(frame[1]),
                payload_length_of(frame),
            );
            &&& outcome.receiver == fresh_receiver(other_end(sender))
            &&& outcome.result == Ok::<ReceivedView, Error>(
                ReceivedView {
                    close_frame: if message is Close || message is CloseNoStatus {
                        ReceivedCloseFrame::Yes
                    } else {
                        ReceivedCloseFrame::No
                    },
                    pong: match message {
                        SinkMessageView::Ping(bytes) => Some(bytes),
                        _ => None,
                    },
                    message: Some(delivered_form(message)),
                },
            )
        }),
{
    let (opcode, payload) = frame_content(message);
    assert(!is_control(OPCODE_TEXT) && !is_control(OPCODE_BINARY)) by (bit_vector);
    lemma_frame_round_trip(
        sender,
        fresh_receiver(other_end(sender)),
        true,
        opcode,
        payload,
        masking_key,
    );
    match message {
        SinkMessageView::Text(text) => {
            encode_utf8_valid_utf8(text);
            encode_utf8_decode_utf8(text);
            assert(Seq::<u8>::empty() + payload =~= payload);
        },
        SinkMessageView::Binary(bytes) => {
            assert(Seq::<u8>::empty() + payload =~= payload);
        },
        SinkMessageView::Close { code, reason } => {
            lemma_close_payload_round_trip(code, reason);
        },
        _ => {},
    }
}

} // verus!
