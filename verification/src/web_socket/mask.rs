//! Payload masking: every payload byte is combined by exclusive or with one
//! byte of a four-byte key, the key repeating over the payload.

use vstd::prelude::*;

verus! {

/// `payload` with byte `i` combined with byte `i mod 4` of `key`.
pub open spec fn apply_mask(payload: Seq<u8>, key: Seq<u8>) -> Seq<u8>
    recommends
        key.len() == 4,
{
    Seq::new(payload.len(), |i: int| payload[i] ^ key[i % 4])
}

/// `data` with the `length` bytes from `offset` on masked by `key`, the key
/// starting anew at `offset`, and every other byte as it was.
pub open spec fn mask_region(data: Seq<u8>, offset: int, length: int, key: Seq<u8>) -> Seq<u8>
    recommends
        key.len() == 4,
        0 <= offset,
        0 <= length,
        offset + length <= data.len(),
{
    Seq::new(
        data.len(),
        |i: int|
            if offset <= i < offset + length {
                data[i] ^ key[(i - offset) % 4]
            } else {
                data[i]
            },
    )
}

/// Masks, or unmasks, `length` bytes of `data` from `offset` on, in place.
pub fn mask_in_place(data: &mut [u8], offset: usize, length: usize, key: [u8; 4])
    requires
        offset + length <= old(data)@.len(),
    ensures
        final(data)@ == mask_region(old(data)@, offset as int, length as int, key@),
{
    let total = data.len();
    let mut i: usize = 0;
    while i < length
        invariant
            i <= length,
            offset + length <= total,
            data@.len() == total,
            old(data)@.len() == total,
            forall|j: int|
                0 <= j < data@.len() ==> data@[j] == if offset <= j < offset + i {
                    old(data)@[j] ^ key@[(j - offset) % 4]
                } else {
                    old(data)@[j]
                },
        decreases length - i,
    {
        data[offset + i] = data[offset + i] ^ key[i % 4];
        i += 1;
    }
    assert(data@ =~= mask_region(old(data)@, offset as int, length as int, key@));
}

/// The masked region of a buffer, cut out, is the mask applied to what was
/// there; the bytes before and after it are untouched.
pub proof fn lemma_mask_region_parts(data: Seq<u8>, offset: int, length: int, key: Seq<u8>)
    requires
        0 <= offset,
        0 <= length,
        offset + length <= data.len(),
    ensures
        mask_region(data, offset, length, key).len() == data.len(),
        mask_region(data, offset, length, key).subrange(0, offset) == data.subrange(0, offset),
        mask_region(data, offset, length, key).subrange(offset, offset + length) == apply_mask(
            data.subrange(offset, offset + length),
            key,
        ),
        mask_region(data, offset, length, key).subrange(offset + length, data.len() as int)
            == data.subrange(offset + length, data.len() as int),
{
    let masked = mask_region(data, offset, length, key);
    assert(masked.subrange(0, offset) =~= data.subrange(0, offset));
    assert(masked.subrange(offset, offset + length) =~= apply_mask(
        data.subrange(offset, offset + length),
        key,
    ));
    assert(masked.subrange(offset + length, data.len() as int) =~= data.subrange(
        offset + length,
        data.len() as int,
    ));
}

proof fn lemma_xor_twice(byte: u8, key: u8)
    by (bit_vector)
    ensures
        (byte ^ key) ^ key == byte,
{
}

/// Masking is its own inverse: applying the same key twice gives back the
/// payload, whatever the key and however long the payload.
pub proof fn lemma_mask_involution(payload: Seq<u8>, key: Seq<u8>)
    ensures
        apply_mask(apply_mask(payload, key), key) == payload,
{
    let once = apply_mask(payload, key);
    let twice = apply_mask(once, key);
    assert forall|i: int| 0 <= i < payload.len() implies twice[i] == payload[i] by {
        lemma_xor_twice(payload[i], key[i % 4]);
    }
    assert(twice =~= payload);
}

/// Masking a region of a buffer twice with the same key restores the buffer.
pub proof fn lemma_mask_region_involution(data: Seq<u8>, offset: int, length: int, key: Seq<u8>)
    ensures
        mask_region(mask_region(data, offset, length, key), offset, length, key) == data,
{
    let once = mask_region(data, offset, length, key);
    let twice = mask_region(once, offset, length, key);
    assert forall|i: int| 0 <= i < data.len() implies twice[i] == data[i] by {
        if offset <= i < offset + length {
            lemma_xor_twice(data[i], key[(i - offset) % 4]);
        }
    }
    assert(twice =~= data);
}

} // verus!
