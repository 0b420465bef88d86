//! The frames of an authenticated session: how a ciphertext and its
//! integrity tag are sealed into an envelope, and how a frame is taken
//! apart again.

use crate::wire::{
    decode_envelope, encode_envelope, lemma_envelope_round_trip, spec_envelope,
    spec_open_envelope,
};
use vstd::prelude::*;

verus! {

/// Length in bytes of an integrity tag.
pub const TAG_BYTES: usize = 8;

/// The longest ciphertext a frame can hold beside the session identifier
/// and the tag.
pub const MAX_CIPHERTEXT_BYTES: usize = 0xfff6;

/// The parts of a frame of session traffic.
#[derive(Clone, Copy, Debug)]
pub struct Sealed<'a> {
    /// Operation identifier of the envelope
    pub operation: u8,
    /// Session the frame belongs to
    pub session_id: u8,
    /// The encrypted payload
    pub ciphertext: &'a [u8],
    /// The integrity tag, `TAG_BYTES` long
    pub tag: &'a [u8],
}

/// The parts of a frame, as plain values.
pub struct SealedView {
    pub operation: u8,
    pub session_id: u8,
    pub ciphertext: Seq<u8>,
    pub tag: Seq<u8>,
}

impl<'a> View for Sealed<'a> {
    type V = SealedView;

    open spec fn view(&self) -> SealedView {
        SealedView {
            operation: self.operation,
            session_id: self.session_id,
            ciphertext: self.ciphertext@,
            tag: self.tag@,
        }
    }
}

/// What the integrity tag of a frame is computed over: the operation
/// identifier, the session identifier and the ciphertext.
pub open spec fn spec_authenticated_data(
    operation: u8,
    session_id: u8,
    ciphertext: Seq<u8>,
) -> Seq<u8> {
    seq![operation, session_id] + ciphertext
}

/// The frame that carries a ciphertext and its tag: an envelope whose
/// payload is the session identifier, the ciphertext and the tag.
pub open spec fn spec_seal(parts: SealedView) -> Seq<u8> {
    spec_envelope(parts.operation, seq![parts.session_id] + parts.ciphertext + parts.tag)
}

/// The parts of a frame, if it is an envelope that is long enough to hold a
/// session identifier and a tag. The last `TAG_BYTES` bytes are the tag.
pub open spec fn spec_unseal(frame: Seq<u8>) -> Option<SealedView> {
    match spec_open_envelope(frame) {
        Ok((operation, body)) => if body.len() < 1 + TAG_BYTES {
            None
        } else {
            Some(
                SealedView {
                    operation,
                    session_id: body[0],
                    ciphertext: body.subrange(1, body.len() - TAG_BYTES),
                    tag: body.skip(body.len() - TAG_BYTES),
                },
            )
        },
        Err(_) => None,
    }
}

/// True when every byte of `key` is zero.
pub open spec fn is_zeroized(key: Seq<u8>) -> bool {
    forall|i: int| 0 <= i < key.len() ==> key[i] == 0
}

/// `key` with every byte overwritten by zero.
pub open spec fn zeroed(key: Seq<u8>) -> Seq<u8> {
    Seq::new(key.len(), |i: int| 0u8)
}

/// The bytes an integrity tag is computed over.
pub fn authenticated_data(operation: u8, session_id: u8, ciphertext: &[u8]) -> (data: Vec<u8>)
    ensures
        data@ == spec_authenticated_data(operation, session_id, ciphertext@),
{
    let mut data: Vec<u8> = Vec::new();
    data.push(operation);
    data.push(session_id);
    data.extend_from_slice(ciphertext);
    assert(data@ =~= spec_authenticated_data(operation, session_id, ciphertext@));
    data
}

/// Seals a ciphertext and its tag into a frame. There is no frame for a
/// ciphertext that is too long for the envelope, nor for a tag of another
/// length than `TAG_BYTES`.
pub fn seal(operation: u8, session_id: u8, ciphertext: &[u8], tag: &[u8]) -> (frame: Option<
    Vec<u8>,
>)
    ensures
        ciphertext@.len() <= MAX_CIPHERTEXT_BYTES && tag@.len() == TAG_BYTES ==> (frame matches Some(
            bytes,
        ) && bytes@ == spec_seal(
            SealedView { operation, session_id, ciphertext: ciphertext@, tag: tag@ },
        )),
        ciphertext@.len() > MAX_CIPHERTEXT_BYTES || tag@.len() != TAG_BYTES ==> frame is None,
{
    if ciphertext.len() > MAX_CIPHERTEXT_BYTES || tag.len() != TAG_BYTES {
        return None;
    }
    let mut body: Vec<u8> = Vec::new();
    body.push(session_id);
    body.extend_from_slice(ciphertext);
    body.extend_from_slice(tag);
    assert(body@ =~= seq![session_id] + ciphertext@ + tag@);
    encode_envelope(operation, body.as_slice())
}

/// Takes a frame apart. A frame that is no envelope, or whose payload is
/// too short for a session identifier and a tag, has no parts.
pub fn unseal<'a>(frame: &'a [u8]) -> (parts: Option<Sealed<'a>>)
    ensures
        match parts {
            Some(sealed) => spec_unseal(frame@) == Some(sealed@),
            None => spec_unseal(frame@) is None,
        },
{
    match decode_envelope(frame) {
        Ok((operation, body)) => {
            if body.len() < 1 + TAG_BYTES {
                return None;
            }
            let split = body.len() - TAG_BYTES;
            let ciphertext = &body[1..split];
            let tag = &body[split..body.len()];
            assert(tag@ =~= body@.skip(split as int));
            Some(Sealed { operation, session_id: body[0], ciphertext, tag })
        },
        Err(_) => None,
    }
}

proof fn lemma_or_xor_zero(seen: u8, a: u8, b: u8)
    by (bit_vector)
    ensures
        (seen | (a ^ b)) == 0 <==> seen == 0 && a == b,
{
}

/// Compares two tags over their whole length: equal tags have the same
/// length and the same bytes.
pub fn tags_equal(expected: &[u8], received: &[u8]) -> (equal: bool)
    ensures
        equal == (expected@ == received@),
{
    if expected.len() != received.len() {
        return false;
    }
    let mut difference: u8 = 0;
    let mut i: usize = 0;
    assert(expected@.take(0) =~= received@.take(0));
    while i < expected.len()
        invariant
            i <= expected.len(),
            expected@.len() == received@.len(),
            difference == 0 <==> expected@.take(i as int) == received@.take(i as int),
        decreases expected.len() - i,
    {
        proof {
            lemma_or_xor_zero(difference, expected@[i as int], received@[i as int]);
            let a = expected@.take(i + 1);
            let b = received@.take(i + 1);
            assert(a.drop_last() =~= expected@.take(i as int));
            assert(b.drop_last() =~= received@.take(i as int));
            assert(a.last() == expected@[i as int]);
            assert(b.last() == received@[i as int]);
            if expected@.take(i as int) == received@.take(i as int) && expected@[i as int]
                == received@[i as int] {
                assert(a =~= b);
            }
        }
        difference = difference | (expected[i] ^ received[i]);
        i += 1;
    }
    assert(expected@.take(i as int) =~= expected@);
    assert(received@.take(i as int) =~= received@);
    difference == 0
}

/// Overwrites every byte of a key with zero.
pub fn zeroize(key: &mut Vec<u8>)
    ensures
        final(key)@ == zeroed(old(key)@),
{
    let mut i: usize = 0;
    while i < key.len()
        invariant
            i <= key.len(),
            key@.len() == old(key)@.len(),
            forall|j: int| 0 <= j < i ==> key@[j] == 0,
        decreases key.len() - i,
    {
        key[i] = 0;
        i += 1;
    }
    assert(key@ =~= zeroed(old(key)@));
}

/// A frame that was sealed comes apart into the parts it was made of.
pub proof fn lemma_unseal_inverts_seal(parts: SealedView)
    requires
        parts.ciphertext.len() <= MAX_CIPHERTEXT_BYTES,
        parts.tag.len() == TAG_BYTES,
    ensures
        spec_unseal(spec_seal(parts)) == Some(parts),
{
    let body = seq![parts.session_id] + parts.ciphertext + parts.tag;
    lemma_envelope_round_trip(parts.operation, body);
    assert(body.subrange(1, body.len() - TAG_BYTES) =~= parts.ciphertext);
    assert(body.skip(body.len() - TAG_BYTES) =~= parts.tag);
}

} // verus!
