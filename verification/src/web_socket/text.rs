//! Decoding of UTF-8 text, and where a failed decoding stopped.

use crate::error::{Error, Utf8Context};
use vstd::prelude::*;
use vstd::utf8::*;

verus! {

/// Whether the first `length` bytes of `bytes` are UTF-8 and no longer
/// prefix of `bytes` is.
pub open spec fn is_valid_up_to(bytes: Seq<u8>, length: int) -> bool {
    &&& 0 <= length <= bytes.len()
    &&& valid_utf8(bytes.subrange(0, length))
    &&& forall|longer: int|
        length < longer <= bytes.len() ==> !valid_utf8(#[trigger] bytes.subrange(0, longer))
}

/// Length of the longest prefix of `bytes` that is UTF-8.
pub open spec fn valid_up_to(bytes: Seq<u8>) -> int {
    choose|length: int| is_valid_up_to(bytes, length)
}

/// What decoding `bytes` as text gives in the place `context`.
pub open spec fn decoded_text(bytes: Seq<u8>, context: Utf8Context) -> Result<Seq<char>, Error> {
    if valid_utf8(bytes) {
        Ok(decode_utf8(bytes))
    } else {
        Err(Error::Utf8 { context, valid_up_to: valid_up_to(bytes) as usize })
    }
}

/// At most one length is the end of the longest UTF-8 prefix.
pub proof fn lemma_valid_up_to_unique(bytes: Seq<u8>, length: int)
    requires
        is_valid_up_to(bytes, length),
    ensures
        valid_up_to(bytes) == length,
{
    let chosen = valid_up_to(bytes);
    assert(is_valid_up_to(bytes, chosen));
    if chosen < length {
        assert(!valid_utf8(bytes.subrange(0, length)));
    } else if length < chosen {
        assert(!valid_utf8(bytes.subrange(0, chosen)));
    }
}

/// `std::str::from_utf8`, with the text copied into a `String` and the
/// error reduced to its `valid_up_to()`.  Trusted: the call succeeds exactly
/// on UTF-8; the text it returns is made of the bytes given; on failure the
/// number is the greatest length whose prefix of the input is UTF-8.
#[verifier::external_body]
fn from_utf8(bytes: &[u8]) -> (decoded: Result<String, usize>)
    ensures
        decoded is Ok <==> valid_utf8(bytes@),
        decoded matches Ok(text) ==> encode_utf8(text@) == bytes@,
        decoded matches Err(length) ==> is_valid_up_to(bytes@, length as int),
{
    match std::str::from_utf8(bytes) {
        Ok(text) => Ok(String::from(text)),
        Err(error) => Err(error.valid_up_to()),
    }
}

/// Decodes `bytes` as UTF-8 text.  Fails, naming `context`, when they are
/// not UTF-8.
pub fn decode_text(bytes: &[u8], context: Utf8Context) -> (decoded: Result<String, Error>)
    ensures
        match decoded {
            Ok(text) => decoded_text(bytes@, context) == Ok::<Seq<char>, Error>(text@),
            Err(error) => decoded_text(bytes@, context) == Err::<Seq<char>, Error>(error),
        },
{
    match from_utf8(bytes) {
        Ok(text) => {
            proof {
                encode_utf8_decode_utf8(text@);
            }
            Ok(text)
        },
        Err(length) => {
            proof {
                lemma_valid_up_to_unique(bytes@, length as int);
            }
            Err(Error::Utf8 { context, valid_up_to: length })
        },
    }
}

} // verus!
