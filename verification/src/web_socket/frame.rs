//! Layout of a frame header: flag bits, opcodes and the three encodings of
//! the payload length.

use vstd::prelude::*;

verus! {

/// Bit of the first header byte that marks the last frame of a message.
pub const FIN: u8 = 0x80;

/// Bit of the second header byte that marks a masked payload.
pub const MASK: u8 = 0x80;

pub const OPCODE_CONTINUATION: u8 = 0x00;

pub const OPCODE_TEXT: u8 = 0x01;

pub const OPCODE_BINARY: u8 = 0x02;

pub const OPCODE_CLOSE: u8 = 0x08;

pub const OPCODE_PING: u8 = 0x09;

pub const OPCODE_PONG: u8 = 0x0A;

/// Largest payload a control frame may carry.
pub const MAX_CONTROL_FRAME_DATA_LENGTH: usize = 125;

/// Largest payload length that fits the two-byte extended length field.
pub const MAX_SHORT_EXTENDED_LENGTH: usize = 65535;

/// Which direction of traffic carries masked frames, seen from this
/// endpoint.  `Transmit`: this endpoint masks what it sends and accepts only
/// unmasked frames.  `Receive`: it sends unmasked frames and accepts only
/// masked ones.
#[derive(Clone, Copy, Debug, PartialEq, Eq, Structural)]
pub enum MaskDirection {
    Receive,
    Transmit,
}

/// Whether a frame closes its message.
#[derive(Clone, Copy, Debug, PartialEq, Eq, Structural)]
pub enum SetFin {
    Yes,
    No,
}

/// The FIN flag of a frame whose first byte is `first`.
pub open spec fn fin_bit(first: u8) -> bool {
    (first & FIN) != 0
}

/// The three reserved bits of a frame whose first byte is `first`.
pub open spec fn reserved_bits(first: u8) -> u8 {
    (first >> 4) & 0x07
}

/// The opcode of a frame whose first byte is `first`.
pub open spec fn opcode_bits(first: u8) -> u8 {
    first & 0x0F
}

/// The MASK flag of a frame whose second byte is `second`.
pub open spec fn mask_bit(second: u8) -> bool {
    (second & MASK) != 0
}

/// The seven-bit length field of a frame whose second byte is `second`.
pub open spec fn length_bits(second: u8) -> u8 {
    second & 0x7F
}

/// Control opcodes are those with the high bit of the four set.
pub open spec fn is_control(opcode: u8) -> bool {
    (opcode & 0x08) != 0
}

/// The value of two bytes read as a big-endian number.
pub open spec fn big_endian_16(bytes: Seq<u8>) -> int
    recommends
        bytes.len() == 2,
{
    bytes[0] as int * 0x100 + bytes[1] as int
}

/// The value of eight bytes read as a big-endian number.
pub open spec fn big_endian_64(bytes: Seq<u8>) -> int
    recommends
        bytes.len() == 8,
{
    bytes[0] as int * 0x100_0000_0000_0000 + bytes[1] as int * 0x1_0000_0000_0000
        + bytes[2] as int * 0x100_0000_0000 + bytes[3] as int * 0x1_0000_0000
        + bytes[4] as int * 0x100_0000 + bytes[5] as int * 0x1_0000 + bytes[6] as int * 0x100
        + bytes[7] as int
}

/// The two bytes that hold `value` as a big-endian number.
pub open spec fn big_endian_16_bytes(value: int) -> Seq<u8>
    recommends
        0 <= value < 0x1_0000,
{
    seq![(value / 0x100 % 0x100) as u8, (value % 0x100) as u8]
}

/// The eight bytes that hold `value` as a big-endian number: each byte is
/// the remainder of what the bytes after it have left over.
pub open spec fn big_endian_64_bytes(value: int) -> Seq<u8>
    recommends
        0 <= value < 0x1_0000_0000_0000_0000,
{
    let rest1 = value / 0x100;
    let rest2 = rest1 / 0x100;
    let rest3 = rest2 / 0x100;
    let rest4 = rest3 / 0x100;
    let rest5 = rest4 / 0x100;
    let rest6 = rest5 / 0x100;
    let rest7 = rest6 / 0x100;
    seq![
        (rest7 % 0x100) as u8,
        (rest6 % 0x100) as u8,
        (rest5 % 0x100) as u8,
        (rest4 % 0x100) as u8,
        (rest3 % 0x100) as u8,
        (rest2 % 0x100) as u8,
        (rest1 % 0x100) as u8,
        (value % 0x100) as u8,
    ]
}

/// Number of header bytes that follow the first two and hold the extended
/// payload length.
pub open spec fn extended_length_size(second: u8) -> int {
    if length_bits(second) == 126 {
        2
    } else if length_bits(second) == 127 {
        8
    } else {
        0
    }
}

/// Length of the whole header of a frame whose second byte is `second`: the
/// two fixed bytes, the extended payload length and the masking key.
pub open spec fn header_length_of(second: u8) -> int {
    2 + extended_length_size(second) + if mask_bit(second) {
        4int
    } else {
        0int
    }
}

/// The payload length that a header announces.
pub open spec fn payload_length_of(header: Seq<u8>) -> int
    recommends
        header.len() >= 2 + extended_length_size(header[1]),
{
    if length_bits(header[1]) == 126 {
        big_endian_16(header.subrange(2, 4))
    } else if length_bits(header[1]) == 127 {
        big_endian_64(header.subrange(2, 10))
    } else {
        length_bits(header[1]) as int
    }
}

/// Computes the length of a frame's header from its second byte, so that a
/// reader knows how many more bytes to fetch before the payload starts.
pub fn header_length(second: u8) -> (length: usize)
    ensures
        length == header_length_of(second),
        2 <= length <= 14,
{
    let extended: usize = if (second & 0x7F) == 126 {
        2
    } else if (second & 0x7F) == 127 {
        8
    } else {
        0
    };
    let key: usize = if (second & MASK) != 0 {
        4
    } else {
        0
    };
    2 + extended + key
}

/// Reads the payload length out of a complete header.  `None` when the
/// frame, header and payload together, is longer than this machine can
/// address.
pub fn payload_length(header: &[u8]) -> (length: Option<usize>)
    requires
        header@.len() >= 2,
        header@.len() >= header_length_of(header@[1]),
    ensures
        match length {
            Some(n) => n == payload_length_of(header@) && header_length_of(header@[1]) + n
                <= usize::MAX,
            None => header_length_of(header@[1]) + payload_length_of(header@) > usize::MAX,
        },
{
    let second = header[1];
    let announced: u64 = if (second & 0x7F) == 126 {
        let ghost field = header@.subrange(2, 4);
        assert(field[0] == header@[2] && field[1] == header@[3]);
        (header[2] as u64) * 0x100 + (header[3] as u64)
    } else if (second & 0x7F) == 127 {
        let ghost field = header@.subrange(2, 10);
        assert(field[0] == header@[2] && field[1] == header@[3] && field[2] == header@[4]
            && field[3] == header@[5] && field[4] == header@[6] && field[5] == header@[7]
            && field[6] == header@[8] && field[7] == header@[9]);
        (header[2] as u64) * 0x100_0000_0000_0000 + (header[3] as u64) * 0x1_0000_0000_0000 + (
        header[4] as u64) * 0x100_0000_0000 + (header[5] as u64) * 0x1_0000_0000 + (
        header[6] as u64) * 0x100_0000 + (header[7] as u64) * 0x1_0000 + (header[8] as u64)
            * 0x100 + (header[9] as u64)
    } else {
        (second & 0x7F) as u64
    };
    let header_length = header_length(second);
    if announced <= (usize::MAX - header_length) as u64 {
        Some(announced as usize)
    } else {
        None
    }
}

/// A big-endian number of two bytes survives being written and read.
pub proof fn lemma_big_endian_16_round_trip(value: int)
    requires
        0 <= value < 0x1_0000,
    ensures
        big_endian_16_bytes(value).len() == 2,
        big_endian_16(big_endian_16_bytes(value)) == value,
{
}

/// A big-endian number of eight bytes survives being written and read.
pub proof fn lemma_big_endian_64_round_trip(value: int)
    requires
        0 <= value < 0x1_0000_0000_0000_0000,
    ensures
        big_endian_64_bytes(value).len() == 8,
        big_endian_64(big_endian_64_bytes(value)) == value,
{
}

} // verus!
