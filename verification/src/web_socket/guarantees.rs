//! What holds of every frame that a receiver is given: which frames are
//! turned down whatever else they hold, which are taken, and how the
//! fragments of a message come together.

use crate::error::{BadFrame, Error, Utf8Context};
use crate::web_socket::close::{
    close_code_of, is_legal_close_code, parsed_close_payload, CloseStatus, CLOSE_CODE_NO_STATUS,
};
use crate::web_socket::frame::{
    fin_bit, is_control, mask_bit, opcode_bits, reserved_bits, MaskDirection,
    MAX_CONTROL_FRAME_DATA_LENGTH, OPCODE_BINARY, OPCODE_CLOSE, OPCODE_CONTINUATION, OPCODE_PING,
    OPCODE_PONG, OPCODE_TEXT,
};
use crate::web_socket::frame_receiver::{
    dispatched, fresh_receiver, header_fault, message_received, nothing_received, received_frame,
    unmasked_payload, FrameReceiverView, MessageInProgress, ReceivedCloseFrame, ReceivedView,
};
use crate::web_socket::message::StreamMessageView;
use crate::web_socket::text::decoded_text;
use vstd::prelude::*;
use vstd::utf8::*;

verus! {

/// A frame with any reserved bit set is turned down, whatever else it
/// holds, and leaves receiver and buffer as they were.
pub proof fn lemma_reserved_bits_rejected(
    receiver: FrameReceiverView,
    buffer: Seq<u8>,
    header_length: int,
    payload_length: int,
)
    requires
        reserved_bits(buffer[0]) != 0,
    ensures
        received_frame(receiver, buffer, header_length, payload_length).result == Err::<
            ReceivedView,
            Error,
        >(Error::BadFrame(BadFrame::ReservedBitsSet)),
        received_frame(receiver, buffer, header_length, payload_length).receiver == receiver,
        received_frame(receiver, buffer, header_length, payload_length).buffer == buffer,
{
}

/// Whether an endpoint with this direction of masked frames takes a frame
/// whose MASK flag is `masked`.
pub open spec fn mask_flag_fits(mask_direction: MaskDirection, masked: bool) -> bool {
    masked == (mask_direction is Receive)
}

/// A frame whose MASK flag is not what the direction of the connection
/// demands is turned down, and leaves receiver and buffer as they were:
/// its payload is neither unmasked nor looked at.
pub proof fn lemma_wrong_mask_flag_rejected(
    receiver: FrameReceiverView,
    buffer: Seq<u8>,
    header_length: int,
    payload_length: int,
)
    requires
        !mask_flag_fits(receiver.mask_direction, mask_bit(buffer[1])),
    ensures
        ({
            let outcome = received_frame(receiver, buffer, header_length, payload_length);
            &&& outcome.receiver == receiver
            &&& outcome.buffer == buffer
            &&& outcome.result == Err::<ReceivedView, Error>(
                Error::BadFrame(
                    if reserved_bits(buffer[0]) != 0 {
                        BadFrame::ReservedBitsSet
                    } else if mask_bit(buffer[1]) {
                        BadFrame::MaskedFrame
                    } else {
                        BadFrame::UnmaskedFrame
                    },
                ),
            )
        }),
{
}

/// A control frame that announces more than 125 bytes of payload is turned
/// down, and leaves receiver and buffer as they were.
pub proof fn lemma_large_control_frame_rejected(
    receiver: FrameReceiverView,
    buffer: Seq<u8>,
    header_length: int,
    payload_length: int,
)
    requires
        is_control(opcode_bits(buffer[0])),
        payload_length > MAX_CONTROL_FRAME_DATA_LENGTH,
    ensures
        ({
            let outcome = received_frame(receiver, buffer, header_length, payload_length);
            &&& outcome.receiver == receiver
            &&& outcome.buffer == buffer
            &&& outcome.result matches Err(Error::BadFrame(reason))
            &&& header_fault(receiver.mask_direction, buffer, payload_length) == Some(reason)
            &&& mask_flag_fits(receiver.mask_direction, mask_bit(buffer[1])) && reserved_bits(
                buffer[0],
            ) == 0 ==> reason == BadFrame::FrameTooLarge
        }),
{
}

/// A ping, pong or close frame of at most 125 bytes, empty ones included,
/// is taken when nothing but its size could speak against it: when its
/// reserved bits are clear, its MASK flag is as the connection demands, it
/// is not fragmented and, for a close frame, its payload is a legal one.
/// It leaves the message in progress as it was.
pub proof fn lemma_small_control_frame_accepted(
    receiver: FrameReceiverView,
    buffer: Seq<u8>,
    header_length: int,
    payload_length: int,
)
    requires
        payload_length <= MAX_CONTROL_FRAME_DATA_LENGTH,
        reserved_bits(buffer[0]) == 0,
        mask_flag_fits(receiver.mask_direction, mask_bit(buffer[1])),
        fin_bit(buffer[0]),
        opcode_bits(buffer[0]) == OPCODE_PING || opcode_bits(buffer[0]) == OPCODE_PONG
            || opcode_bits(buffer[0]) == OPCODE_CLOSE,
        opcode_bits(buffer[0]) == OPCODE_CLOSE ==> parsed_close_payload(
            unmasked_payload(buffer, header_length, payload_length),
        ) is Ok,
    ensures
        ({
            let outcome = received_frame(receiver, buffer, header_length, payload_length);
            let payload = unmasked_payload(buffer, header_length, payload_length);
            &&& outcome.receiver == receiver
            &&& outcome.result matches Ok(received)
            &&& opcode_bits(buffer[0]) == OPCODE_PING ==> received == (ReceivedView {
                close_frame: ReceivedCloseFrame::No,
                pong: Some(payload),
                message: Some(StreamMessageView::Ping(payload)),
            })
            &&& opcode_bits(buffer[0]) == OPCODE_PONG ==> received == message_received(
                StreamMessageView::Pong(payload),
            )
            &&& opcode_bits(buffer[0]) == OPCODE_CLOSE ==> received.close_frame
                == ReceivedCloseFrame::Yes && received.pong is None && received.message is Some
        }),
{
}

/// A continuation frame that no unfinished message precedes is turned
/// down, and leaves the receiver as it was.
pub proof fn lemma_stray_continuation_rejected(
    receiver: FrameReceiverView,
    buffer: Seq<u8>,
    header_length: int,
    payload_length: int,
)
    requires
        opcode_bits(buffer[0]) == OPCODE_CONTINUATION,
        receiver.message_in_progress is Nothing,
    ensures
        ({
            let outcome = received_frame(receiver, buffer, header_length, payload_length);
            &&& outcome.receiver == receiver
            &&& outcome.result matches Err(Error::BadFrame(reason))
            &&& header_fault(receiver.mask_direction, buffer, payload_length) is None ==> reason
                == BadFrame::UnexpectedContinuationFrame
        }),
{
}

/// A text or binary frame that arrives while a message is in progress is
/// turned down, and leaves the receiver as it was.
pub proof fn lemma_interleaved_message_rejected(
    receiver: FrameReceiverView,
    buffer: Seq<u8>,
    header_length: int,
    payload_length: int,
)
    requires
        opcode_bits(buffer[0]) == OPCODE_TEXT || opcode_bits(buffer[0]) == OPCODE_BINARY,
        !(receiver.message_in_progress is Nothing),
    ensures
        ({
            let outcome = received_frame(receiver, buffer, header_length, payload_length);
            &&& outcome.receiver == receiver
            &&& outcome.result matches Err(Error::BadFrame(reason))
            &&& header_fault(receiver.mask_direction, buffer, payload_length) is None ==> reason
                == BadFrame::LastMessageIncomplete
        }),
{
}

/// One frame as the receiver sees it once the header is found in order and
/// the mask is off.
pub struct Fragment {
    pub fin: bool,
    pub opcode: u8,
    pub payload: Seq<u8>,
}

/// Whether the frame is a ping or a pong that may come between the
/// fragments of a message.
pub open spec fn is_injected(fragment: Fragment) -> bool {
    fragment.fin && (fragment.opcode == OPCODE_PING || fragment.opcode == OPCODE_PONG)
}

/// The payloads of the frames of a message, one after the other.  Pings
/// and pongs among them add nothing.
pub open spec fn joined_payloads(fragments: Seq<Fragment>) -> Seq<u8>
    decreases fragments.len(),
{
    if fragments.len() == 0 {
        Seq::empty()
    } else if is_injected(fragments.last()) {
        joined_payloads(fragments.drop_last())
    } else {
        joined_payloads(fragments.drop_last()) + fragments.last().payload
    }
}

/// The receiver after it was given `fragments` in order.
pub open spec fn after_fragments(receiver: FrameReceiverView, fragments: Seq<Fragment>) -> FrameReceiverView
    decreases fragments.len(),
{
    if fragments.len() == 0 {
        receiver
    } else {
        dispatched(
            after_fragments(receiver, fragments.drop_last()),
            fragments.last().fin,
            fragments.last().opcode,
            fragments.last().payload,
        ).receiver
    }
}

/// What the last of `fragments` gives, the others having been received
/// before it.
pub open spec fn last_result(receiver: FrameReceiverView, fragments: Seq<Fragment>) -> Result<
    ReceivedView,
    Error,
>
    recommends
        fragments.len() > 0,
{
    dispatched(
        after_fragments(receiver, fragments.drop_last()),
        fragments.last().fin,
        fragments.last().opcode,
        fragments.last().payload,
    ).result
}

/// The opcode that opens a message of this kind.
pub open spec fn opening_opcode(kind: MessageInProgress) -> u8 {
    if kind is Text {
        OPCODE_TEXT
    } else {
        OPCODE_BINARY
    }
}

/// Whether `fragments` are the frames of one message of this kind, all but
/// the last: a text or binary frame and then continuation frames, none of
/// them final, with pings and pongs anywhere between them.
pub open spec fn opens_message(kind: MessageInProgress, fragments: Seq<Fragment>) -> bool {
    &&& !(kind is Nothing)
    &&& fragments.len() >= 1
    &&& fragments[0].opcode == opening_opcode(kind)
    &&& !fragments[0].fin
    &&& forall|i: int|
        0 < i < fragments.len() ==> is_injected(#[trigger] fragments[i]) || (fragments[i].opcode
            == OPCODE_CONTINUATION && !fragments[i].fin)
}

/// While the fragments of a message arrive, none of them final, the
/// receiver holds their payloads in order and delivers nothing of the
/// message.  A ping or a pong between them is dealt with at once and
/// leaves what was collected alone.
pub proof fn lemma_fragments_are_collected(
    receiver: FrameReceiverView,
    kind: MessageInProgress,
    fragments: Seq<Fragment>,
)
    requires
        receiver.message_in_progress is Nothing,
        opens_message(kind, fragments),
    ensures
        after_fragments(receiver, fragments) == (FrameReceiverView {
            mask_direction: receiver.mask_direction,
            message_in_progress: kind,
            reassembled: joined_payloads(fragments),
        }),
        !is_injected(fragments.last()) ==> last_result(receiver, fragments) == Ok::<
            ReceivedView,
            Error,
        >(nothing_received()),
        is_injected(fragments.last()) ==> last_result(receiver, fragments) is Ok,
    decreases fragments.len(),
{
    let earlier = fragments.drop_last();
    let last = fragments.last();
    if earlier.len() == 0 {
        assert(last == fragments[0]);
        assert(after_fragments(receiver, earlier) == receiver);
        assert(joined_payloads(earlier) =~= Seq::<u8>::empty());
        assert(joined_payloads(fragments) =~= last.payload);
    } else {
        assert(opens_message(kind, earlier)) by {
            assert(earlier[0] == fragments[0]);
            assert forall|i: int| 0 <= i < earlier.len() implies earlier[i] == fragments[i] by {}
        }
        lemma_fragments_are_collected(receiver, kind, earlier);
        assert(last == fragments[fragments.len() - 1]);
        assert(is_injected(last) || (last.opcode == OPCODE_CONTINUATION && !last.fin));
    }
}

/// A message sent in fragments comes together again: after a text or
/// binary frame and any number of continuation frames, none of them final,
/// a final continuation frame completes the message, which is the payloads
/// of all these frames in order, whatever pings and pongs came between
/// them.  A binary message is delivered as it is; a text message is
/// delivered if the whole of it is UTF-8, and refused if not.  The
/// receiver is then ready for the next message.
pub proof fn lemma_fragments_reassemble(
    receiver: FrameReceiverView,
    kind: MessageInProgress,
    fragments: Seq<Fragment>,
    last: Fragment,
)
    requires
        receiver.message_in_progress is Nothing,
        opens_message(kind, fragments),
        last.opcode == OPCODE_CONTINUATION,
        last.fin,
    ensures
        ({
            let outcome = dispatched(
                after_fragments(receiver, fragments),
                last.fin,
                last.opcode,
                last.payload,
            );
            let message = joined_payloads(fragments.push(last));
            &&& kind is Binary ==> outcome.result == Ok::<ReceivedView, Error>(
                message_received(StreamMessageView::Binary(message)),
            ) && outcome.receiver == fresh_receiver(receiver.mask_direction)
            &&& kind is Text && valid_utf8(message) ==> outcome.result == Ok::<
                ReceivedView,
                Error,
            >(message_received(StreamMessageView::Text(decode_utf8(message))))
                && outcome.receiver == fresh_receiver(receiver.mask_direction)
            &&& kind is Text && !valid_utf8(message) ==> (decoded_text(
                message,
                Utf8Context::TextMessage,
            ) matches Err(error) && outcome.result == Err::<ReceivedView, Error>(error))
        }),
{
    lemma_fragments_are_collected(receiver, kind, fragments);
    assert(fragments.push(last).drop_last() =~= fragments);
    assert(fragments.push(last).last() == last);
    assert(!is_injected(last));
}

/// Control frames may come between the fragments of a message: a ping, a
/// pong or a close frame that is taken leaves what was collected as it was.
pub proof fn lemma_control_frames_keep_fragments(
    receiver: FrameReceiverView,
    fin: bool,
    opcode: u8,
    payload: Seq<u8>,
)
    requires
        opcode == OPCODE_PING || opcode == OPCODE_PONG || opcode == OPCODE_CLOSE,
    ensures
        dispatched(receiver, fin, opcode, payload).receiver == receiver,
{
}

/// The codes that a close frame may hold, one by one.
pub proof fn lemma_legal_close_codes(code: int)
    ensures
        is_legal_close_code(code) <==> (code == 1000 || code == 1001 || code == 1002 || code
            == 1003 || code == 1007 || code == 1008 || code == 1009 || code == 1010 || code
            == 1011 || 3000 <= code <= 4999),
{
}

/// An empty close payload is read as code 1005 with no reason.  A payload
/// of two bytes or more is refused if its code is not a legal one, whatever
/// follows the code, and read as that code if it is and the rest is UTF-8.
pub proof fn lemma_close_codes(payload: Seq<u8>)
    ensures
        payload.len() == 0 ==> parsed_close_payload(payload) == Ok::<CloseStatus, Error>(
            CloseStatus { code: CLOSE_CODE_NO_STATUS, reason: Seq::empty() },
        ),
        payload.len() >= 2 && !is_legal_close_code(close_code_of(payload)) ==> parsed_close_payload(
            payload,
        ) == Err::<CloseStatus, Error>(Error::BadFrame(BadFrame::IllegalCloseCode)),
        payload.len() >= 2 && is_legal_close_code(close_code_of(payload)) && valid_utf8(
            payload.subrange(2, payload.len() as int),
        ) ==> parsed_close_payload(payload) == Ok::<CloseStatus, Error>(
            CloseStatus {
                code: close_code_of(payload) as u16,
                reason: decode_utf8(payload.subrange(2, payload.len() as int)),
            },
        ),
{
}

/// A close frame that is taken is delivered with the code and the reason
/// that its payload gives, and with no reply sent.
pub proof fn lemma_close_frame_delivered(
    receiver: FrameReceiverView,
    buffer: Seq<u8>,
    header_length: int,
    payload_length: int,
)
    requires
        header_fault(receiver.mask_direction, buffer, payload_length) is None,
        fin_bit(buffer[0]),
        opcode_bits(buffer[0]) == OPCODE_CLOSE,
    ensures
        ({
            let outcome = received_frame(receiver, buffer, header_length, payload_length);
            let payload = unmasked_payload(buffer, header_length, payload_length);
            match parsed_close_payload(payload) {
                Ok(status) => outcome.result == Ok::<ReceivedView, Error>(
                    ReceivedView {
                        close_frame: ReceivedCloseFrame::Yes,
                        pong: None,
                        message: Some(
                            StreamMessageView::Close {
                                code: status.code,
                                reason: status.reason,
                                reply_sent: false,
                            },
                        ),
                    },
                ),
                Err(error) => outcome.result == Err::<ReceivedView, Error>(error),
            }
        }),
{
}

} // verus!
