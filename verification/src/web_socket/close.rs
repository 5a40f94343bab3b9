//! The payload of a close frame: an optional two-byte code, big-endian,
//! followed by a reason in UTF-8.

use crate::error::{BadFrame, Error, Utf8Context};
use crate::web_socket::text::{decode_text, decoded_text};
use vstd::prelude::*;
use vstd::utf8::*;

verus! {

/// The code that stands for "the close frame held no code".
pub const CLOSE_CODE_NO_STATUS: u16 = 1005;

/// The code sent when there is nothing more specific to say.
pub const CLOSE_CODE_NORMAL: u16 = 1000;

/// The codes a peer may put in a close frame: 1000 to 1003, 1007 to 1011,
/// and the range left to applications, 3000 to 4999.
pub open spec fn is_legal_close_code(code: int) -> bool {
    ||| 1000 <= code <= 1003
    ||| 1007 <= code <= 1011
    ||| 3000 <= code <= 4999
}

/// Code and reason that a close payload gives.
pub struct CloseStatus {
    pub code: u16,
    pub reason: Seq<char>,
}

/// The code that the first two bytes of a close payload spell.
pub open spec fn close_code_of(payload: Seq<u8>) -> int
    recommends
        payload.len() >= 2,
{
    payload[0] as int * 0x100 + payload[1] as int
}

/// What a close payload means.  Shorter than two bytes, it holds no code:
/// the code is taken to be 1005 and the reason to be empty.  Otherwise the
/// code must be legal and the rest must be UTF-8.
pub open spec fn parsed_close_payload(payload: Seq<u8>) -> Result<CloseStatus, Error> {
    if payload.len() < 2 {
        Ok(CloseStatus { code: CLOSE_CODE_NO_STATUS, reason: Seq::empty() })
    } else if !is_legal_close_code(close_code_of(payload)) {
        Err(Error::BadFrame(BadFrame::IllegalCloseCode))
    } else {
        match decoded_text(payload.subrange(2, payload.len() as int), Utf8Context::CloseReason) {
            Ok(reason) => Ok(CloseStatus { code: close_code_of(payload) as u16, reason }),
            Err(error) => Err(error),
        }
    }
}

/// The close payload that spells `code` and `reason`.
pub open spec fn close_payload_of(code: u16, reason: Seq<char>) -> Seq<u8> {
    seq![(code / 0x100) as u8, (code % 0x100) as u8] + encode_utf8(reason)
}

/// Tells whether a peer may send `code` in a close frame.
pub fn close_code_is_legal(code: u16) -> (legal: bool)
    ensures
        legal == is_legal_close_code(code as int),
{
    (1000 <= code && code <= 1003) || (1007 <= code && code <= 1011) || (3000 <= code && code
        <= 4999)
}

/// Reads code and reason out of the payload of a close frame.
pub fn parse_close_payload(payload: &[u8]) -> (parsed: Result<(u16, String), Error>)
    ensures
        match parsed {
            Ok((code, reason)) => parsed_close_payload(payload@) == Ok::<CloseStatus, Error>(
                CloseStatus { code, reason: reason@ },
            ),
            Err(error) => parsed_close_payload(payload@) == Err::<CloseStatus, Error>(error),
        },
{
    if payload.len() < 2 {
        return Ok((CLOSE_CODE_NO_STATUS, String::new()));
    }
    let code: u16 = (payload[0] as u16) * 0x100 + (payload[1] as u16);
    if !close_code_is_legal(code) {
        return Err(Error::BadFrame(BadFrame::IllegalCloseCode));
    }
    match decode_text(&payload[2..payload.len()], Utf8Context::CloseReason) {
        Ok(reason) => Ok((code, reason)),
        Err(error) => Err(error),
    }
}

/// Writes the payload of a close frame that gives `code` and `reason`.
pub fn close_payload(code: u16, reason: &str) -> (payload: Vec<u8>)
    ensures
        payload@ == close_payload_of(code, reason@),
{
    let mut payload: Vec<u8> = Vec::new();
    payload.push((code / 0x100) as u8);
    payload.push((code % 0x100) as u8);
    payload.extend_from_slice(reason.as_bytes());
    payload
}

/// A close payload written from a legal code and a reason reads back as
/// that code and that reason.
pub proof fn lemma_close_payload_round_trip(code: u16, reason: Seq<char>)
    requires
        is_legal_close_code(code as int),
    ensures
        parsed_close_payload(close_payload_of(code, reason)) == Ok::<CloseStatus, Error>(
            CloseStatus { code, reason },
        ),
{
    let payload = close_payload_of(code, reason);
    assert(payload.subrange(2, payload.len() as int) =~= encode_utf8(reason));
    encode_utf8_valid_utf8(reason);
    encode_utf8_decode_utf8(reason);
}

} // verus!
