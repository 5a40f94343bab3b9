//! The sending side of the frame engine: writes one frame around a payload,
//! with the shortest length field that holds the payload's length, and
//! masked where the direction of the connection demands it.

use crate::web_socket::close::{close_payload, close_payload_of};
use crate::web_socket::frame::{
    big_endian_16_bytes, big_endian_64_bytes, MaskDirection, SetFin, FIN, MASK,
    MAX_CONTROL_FRAME_DATA_LENGTH, MAX_SHORT_EXTENDED_LENGTH, OPCODE_BINARY, OPCODE_CLOSE,
    OPCODE_PING, OPCODE_PONG, OPCODE_TEXT,
};
use crate::web_socket::mask::{apply_mask, mask_in_place};
use crate::web_socket::message::{SinkMessage, SinkMessageView};
use vstd::prelude::*;
use vstd::utf8::*;

verus! {

/// The first byte of a frame with this FIN flag and opcode.
pub open spec fn first_byte(fin: bool, opcode: u8) -> u8 {
    if fin {
        FIN | opcode
    } else {
        opcode
    }
}

/// The second byte of a frame and its extended length field, for a payload
/// of `length` bytes: the length itself up to 125; then 126 and the length
/// in two bytes up to 65535; from there on 127 and the length in eight
/// bytes.  The MASK flag is set in the second byte of a masked frame.
pub open spec fn length_field(length: int, masked: bool) -> Seq<u8> {
    let flag = if masked {
        MASK
    } else {
        0u8
    };
    if length <= MAX_CONTROL_FRAME_DATA_LENGTH {
        seq![flag | (length as u8)]
    } else if length <= MAX_SHORT_EXTENDED_LENGTH {
        seq![flag | 126u8] + big_endian_16_bytes(length)
    } else {
        seq![flag | 127u8] + big_endian_64_bytes(length)
    }
}

/// The bytes of one frame: header, then the masking key and the masked
/// payload if a key is given, the plain payload if none is.
pub open spec fn encoded_frame(
    fin: bool,
    opcode: u8,
    payload: Seq<u8>,
    masking_key: Option<Seq<u8>>,
) -> Seq<u8> {
    seq![first_byte(fin, opcode)] + length_field(payload.len() as int, masking_key is Some)
        + match masking_key {
        Some(key) => key + apply_mask(payload, key),
        None => payload,
    }
}

/// The key that masks what an endpoint writes, if it masks: the end that
/// transmits masked frames uses the key it is given, the other end none.
pub open spec fn key_used(mask_direction: MaskDirection, masking_key: Seq<u8>) -> Option<Seq<u8>> {
    if mask_direction is Transmit {
        Some(masking_key)
    } else {
        None
    }
}

/// Opcode and payload of the frame that carries `message`.
pub open spec fn frame_content(message: SinkMessageView) -> (u8, Seq<u8>) {
    match message {
        SinkMessageView::Text(text) => (OPCODE_TEXT, encode_utf8(text)),
        SinkMessageView::Binary(bytes) => (OPCODE_BINARY, bytes),
        SinkMessageView::Ping(bytes) => (OPCODE_PING, bytes),
        SinkMessageView::Pong(bytes) => (OPCODE_PONG, bytes),
        SinkMessageView::Close { code, reason } => (OPCODE_CLOSE, close_payload_of(code, reason)),
        SinkMessageView::CloseNoStatus => (OPCODE_CLOSE, Seq::empty()),
    }
}

/// Whether `message` fits one frame: the payload of a control frame is at
/// most 125 bytes long.
pub open spec fn fits_one_frame(message: SinkMessageView) -> bool {
    message is Text || message is Binary || frame_content(message).1.len()
        <= MAX_CONTROL_FRAME_DATA_LENGTH
}

/// Appends the second byte of a frame and its extended length field.
fn push_length_field(frame: &mut Vec<u8>, length: usize, masked: bool)
    ensures
        final(frame)@ == old(frame)@ + length_field(length as int, masked),
{
    let flag: u8 = if masked {
        MASK
    } else {
        0
    };
    if length <= MAX_CONTROL_FRAME_DATA_LENGTH {
        frame.push(flag | (length as u8));
    } else if length <= MAX_SHORT_EXTENDED_LENGTH {
        frame.push(flag | 126);
        frame.push((length / 0x100 % 0x100) as u8);
        frame.push((length % 0x100) as u8);
    } else {
        frame.push(flag | 127);
        let rest0: u64 = length as u64;
        let rest1: u64 = rest0 / 0x100;
        let rest2: u64 = rest1 / 0x100;
        let rest3: u64 = rest2 / 0x100;
        let rest4: u64 = rest3 / 0x100;
        let rest5: u64 = rest4 / 0x100;
        let rest6: u64 = rest5 / 0x100;
        let rest7: u64 = rest6 / 0x100;
        frame.push((rest7 % 0x100) as u8);
        frame.push((rest6 % 0x100) as u8);
        frame.push((rest5 % 0x100) as u8);
        frame.push((rest4 % 0x100) as u8);
        frame.push((rest3 % 0x100) as u8);
        frame.push((rest2 % 0x100) as u8);
        frame.push((rest1 % 0x100) as u8);
        frame.push((rest0 % 0x100) as u8);
    }
    assert(frame@ =~= old(frame)@ + length_field(length as int, masked));
}

/// Writes frames for one direction of a connection.
pub struct FrameSender {
    mask_direction: MaskDirection,
}

impl FrameSender {
    /// The direction of masked frames on the connection that the frames are
    /// written for.
    pub closed spec fn mask_direction(&self) -> MaskDirection {
        self.mask_direction
    }

    /// A sender for a connection on which masked frames travel in
    /// `mask_direction`.
    pub fn new(mask_direction: MaskDirection) -> (sender: Self)
        ensures
            sender.mask_direction() == mask_direction,
    {
        Self { mask_direction }
    }

    /// Writes one frame.  `masking_key` is used only where this endpoint
    /// masks what it sends; it should be fresh and unpredictable for every
    /// frame.
    pub fn encode_frame(
        &self,
        set_fin: SetFin,
        opcode: u8,
        payload: &[u8],
        masking_key: [u8; 4],
    ) -> (frame: Vec<u8>)
        requires
            opcode <= 0x0F,
        ensures
            frame@ == encoded_frame(
                set_fin is Yes,
                opcode,
                payload@,
                key_used(self.mask_direction(), masking_key@),
            ),
    {
        let masked = match self.mask_direction {
            MaskDirection::Transmit => true,
            MaskDirection::Receive => false,
        };
        let mut frame: Vec<u8> = Vec::new();
        frame.push(
            match set_fin {
                SetFin::Yes => FIN | opcode,
                SetFin::No => opcode,
            },
        );
        push_length_field(&mut frame, payload.len(), masked);
        let ghost header = frame@;
        assert(header =~= seq![first_byte(set_fin is Yes, opcode)] + length_field(
            payload@.len() as int,
            masked,
        ));
        if masked {
            frame.push(masking_key[0]);
            frame.push(masking_key[1]);
            frame.push(masking_key[2]);
            frame.push(masking_key[3]);
            let start = frame.len();
            frame.extend_from_slice(payload);
            mask_in_place(frame.as_mut_slice(), start, payload.len(), masking_key);
            assert(frame@ =~= header + (masking_key@ + apply_mask(payload@, masking_key@)));
        } else {
            frame.extend_from_slice(payload);
        }
        frame
    }

    /// Writes the one frame that carries `message`.  `None` when the
    /// message does not fit one frame.
    pub fn encode_message(&self, message: &SinkMessage, masking_key: [u8; 4]) -> (frame: Option<
        Vec<u8>,
    >)
        ensures
            match frame {
                Some(frame) => fits_one_frame(message@) && frame@ == encoded_frame(
                    true,
                    frame_content(message@).0,
                    frame_content(message@).1,
                    key_used(self.mask_direction(), masking_key@),
                ),
                None => !fits_one_frame(message@),
            },
    {
        match message {
            SinkMessage::Text(text) => Some(
                self.encode_frame(SetFin::Yes, OPCODE_TEXT, text.as_str().as_bytes(), masking_key),
            ),
            SinkMessage::Binary(bytes) => Some(
                self.encode_frame(SetFin::Yes, OPCODE_BINARY, bytes.as_slice(), masking_key),
            ),
            SinkMessage::Ping(bytes) => self.encode_control_frame(
                OPCODE_PING,
                bytes.as_slice(),
                masking_key,
            ),
            SinkMessage::Pong(bytes) => self.encode_control_frame(
                OPCODE_PONG,
                bytes.as_slice(),
                masking_key,
            ),
            SinkMessage::Close { code, reason } => {
                let payload = close_payload(*code, reason.as_str());
                self.encode_control_frame(OPCODE_CLOSE, payload.as_slice(), masking_key)
            },
            SinkMessage::CloseNoStatus => {
                let payload: Vec<u8> = Vec::new();
                self.encode_control_frame(OPCODE_CLOSE, payload.as_slice(), masking_key)
            },
        }
    }

    /// Writes one control frame.  `None` when the payload is longer than a
    /// control frame may carry.
    pub fn encode_control_frame(&self, opcode: u8, payload: &[u8], masking_key: [u8; 4]) -> (frame:
        Option<Vec<u8>>)
        requires
            opcode <= 0x0F,
        ensures
            match frame {
                Some(frame) => payload@.len() <= MAX_CONTROL_FRAME_DATA_LENGTH && frame@
                    == encoded_frame(true, opcode, payload@, key_used(self.mask_direction(), masking_key@)),
                None => payload@.len() > MAX_CONTROL_FRAME_DATA_LENGTH,
            },
    {
        if payload.len() > MAX_CONTROL_FRAME_DATA_LENGTH {
            None
        } else {
            Some(self.encode_frame(SetFin::Yes, opcode, payload, masking_key))
        }
    }
}

} // verus!
