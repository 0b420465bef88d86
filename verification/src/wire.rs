//! Big-endian integer fields and the message envelope.

use crate::error::DecodeError;
use byteorder::{BigEndian, ByteOrder, WriteBytesExt};
use vstd::prelude::*;

verus! {

/// Length in bytes of an envelope's header: the operation identifier and
/// the length of the payload.
pub const HEADER_BYTES: usize = 3;

/// The longest payload an envelope can hold.
pub const MAX_PAYLOAD_BYTES: usize = 0xffff;

/// The 16-bit value whose big-endian encoding starts `bytes`.
pub open spec fn u16_from_be_bytes(bytes: Seq<u8>) -> u16
    recommends
        bytes.len() >= 2,
{
    (bytes[0] as u16) << 8 | (bytes[1] as u16)
}

/// The two bytes that encode `value`, most significant first.
pub open spec fn u16_to_be_bytes(value: u16) -> Seq<u8> {
    seq![((value >> 8) & 0xff) as u8, (value & 0xff) as u8]
}

/// The 64-bit value whose big-endian encoding starts `bytes`.
pub open spec fn u64_from_be_bytes(bytes: Seq<u8>) -> u64
    recommends
        bytes.len() >= 8,
{
    (bytes[0] as u64) << 56
        | (bytes[1] as u64) << 48
        | (bytes[2] as u64) << 40
        | (bytes[3] as u64) << 32
        | (bytes[4] as u64) << 24
        | (bytes[5] as u64) << 16
        | (bytes[6] as u64) << 8
        | (bytes[7] as u64)
}

/// The eight bytes that encode `value`, most significant first.
pub open spec fn u64_to_be_bytes(value: u64) -> Seq<u8> {
    seq![
        ((value >> 56) & 0xff) as u8,
        ((value >> 48) & 0xff) as u8,
        ((value >> 40) & 0xff) as u8,
        ((value >> 32) & 0xff) as u8,
        ((value >> 24) & 0xff) as u8,
        ((value >> 16) & 0xff) as u8,
        ((value >> 8) & 0xff) as u8,
        (value & 0xff) as u8,
    ]
}

/// `byteorder::BigEndian::read_u16`: reads the first two bytes of the slice
/// as a big-endian integer. The call panics on a shorter slice, which the
/// precondition rules out.
#[verifier::external_body]
pub(crate) fn read_u16_be(bytes: &[u8]) -> (value: u16)
    requires
        bytes@.len() >= 2,
    ensures
        value == u16_from_be_bytes(bytes@),
{
    BigEndian::read_u16(bytes)
}

/// `byteorder::BigEndian::read_u64`: reads the first eight bytes of the
/// slice as a big-endian integer. The call panics on a shorter slice, which
/// the precondition rules out.
#[verifier::external_body]
pub(crate) fn read_u64_be(bytes: &[u8]) -> (value: u64)
    requires
        bytes@.len() >= 8,
    ensures
        value == u64_from_be_bytes(bytes@),
{
    BigEndian::read_u64(bytes)
}

/// `byteorder::WriteBytesExt::write_u16` with `BigEndian` on a `Vec<u8>`:
/// appends the two bytes of `value`, most significant first. Writing to a
/// vector cannot fail.
#[verifier::external_body]
pub(crate) fn write_u16_be(data: &mut Vec<u8>, value: u16)
    ensures
        final(data)@ == old(data)@ + u16_to_be_bytes(value),
{
    data.write_u16::<BigEndian>(value).unwrap();
}

/// `byteorder::WriteBytesExt::write_u64` with `BigEndian` on a `Vec<u8>`:
/// appends the eight bytes of `value`, most significant first. Writing to a
/// vector cannot fail.
#[verifier::external_body]
pub(crate) fn write_u64_be(data: &mut Vec<u8>, value: u64)
    ensures
        final(data)@ == old(data)@ + u64_to_be_bytes(value),
{
    data.write_u64::<BigEndian>(value).unwrap();
}

/// Decoding the encoding of a 16-bit value gives the value back.
pub proof fn lemma_u16_round_trip(value: u16)
    ensures
        u16_from_be_bytes(u16_to_be_bytes(value)) == value,
{
    assert(((((value >> 8) & 0xff) as u8) as u16) << 8 | (((value & 0xff) as u8) as u16) == value)
        by (bit_vector);
}

/// Decoding the encoding of a 64-bit value gives the value back.
pub proof fn lemma_u64_round_trip(value: u64)
    ensures
        u64_from_be_bytes(u64_to_be_bytes(value)) == value,
{
    assert((((value >> 56) & 0xff) as u8 as u64) << 56
        | (((value >> 48) & 0xff) as u8 as u64) << 48
        | (((value >> 40) & 0xff) as u8 as u64) << 40
        | (((value >> 32) & 0xff) as u8 as u64) << 32
        | (((value >> 24) & 0xff) as u8 as u64) << 24
        | (((value >> 16) & 0xff) as u8 as u64) << 16
        | (((value >> 8) & 0xff) as u8 as u64) << 8
        | ((value & 0xff) as u8 as u64) == value) by (bit_vector);
}

/// The envelope of a message: the operation identifier, the length of the
/// payload in two bytes, and the payload.
pub open spec fn spec_envelope(operation: u8, payload: Seq<u8>) -> Seq<u8>
    recommends
        payload.len() <= MAX_PAYLOAD_BYTES,
{
    seq![operation] + u16_to_be_bytes(payload.len() as u16) + payload
}

/// What an envelope holds: its operation identifier and its payload. A
/// frame is an envelope only if the length it declares is the length of
/// what follows the header, to the byte.
pub open spec fn spec_open_envelope(frame: Seq<u8>) -> Result<(u8, Seq<u8>), DecodeError> {
    if frame.len() < HEADER_BYTES {
        Err(DecodeError::WrongLength { expected: HEADER_BYTES, actual: frame.len() as usize })
    } else if frame.len() != HEADER_BYTES + u16_from_be_bytes(frame.subrange(1, 3)) {
        Err(
            DecodeError::WrongLength {
                expected: (HEADER_BYTES + u16_from_be_bytes(frame.subrange(1, 3))) as usize,
                actual: frame.len() as usize,
            },
        )
    } else {
        Ok((frame[0], frame.skip(3)))
    }
}

/// Puts a payload into its envelope. A payload longer than the length field
/// can say gets none.
pub fn encode_envelope(operation: u8, payload: &[u8]) -> (frame: Option<Vec<u8>>)
    ensures
        payload@.len() <= MAX_PAYLOAD_BYTES ==> (frame matches Some(bytes) && bytes@
            == spec_envelope(operation, payload@)),
        payload@.len() > MAX_PAYLOAD_BYTES ==> frame is None,
{
    if payload.len() > MAX_PAYLOAD_BYTES {
        return None;
    }
    let mut frame: Vec<u8> = Vec::new();
    frame.push(operation);
    write_u16_be(&mut frame, payload.len() as u16);
    frame.extend_from_slice(payload);
    assert(frame@ =~= spec_envelope(operation, payload@));
    Some(frame)
}

/// Takes an envelope apart into its operation identifier and its payload.
/// A frame that is shorter or longer than its header declares is refused.
pub fn decode_envelope(frame: &[u8]) -> (opened: Result<(u8, &[u8]), DecodeError>)
    ensures
        match opened {
            Ok((operation, payload)) => spec_open_envelope(frame@) == Ok::<
                (u8, Seq<u8>),
                DecodeError,
            >((operation, payload@)),
            Err(error) => spec_open_envelope(frame@) == Err::<(u8, Seq<u8>), DecodeError>(error),
        },
{
    if frame.len() < HEADER_BYTES {
        return Err(DecodeError::WrongLength { expected: HEADER_BYTES, actual: frame.len() });
    }
    let declared = read_u16_be(&frame[1..3]) as usize;
    if frame.len() - HEADER_BYTES != declared {
        return Err(
            DecodeError::WrongLength { expected: HEADER_BYTES + declared, actual: frame.len() },
        );
    }
    let payload = &frame[3..frame.len()];
    assert(payload@ =~= frame@.skip(3));
    Ok((frame[0], payload))
}

/// Opening the envelope of a payload gives back the operation identifier
/// and the payload.
pub proof fn lemma_envelope_round_trip(operation: u8, payload: Seq<u8>)
    requires
        payload.len() <= MAX_PAYLOAD_BYTES,
    ensures
        spec_open_envelope(spec_envelope(operation, payload)) == Ok::<(u8, Seq<u8>), DecodeError>(
            (operation, payload),
        ),
{
    let frame = spec_envelope(operation, payload);
    lemma_u16_round_trip(payload.len() as u16);
    assert(frame.subrange(1, 3) =~= u16_to_be_bytes(payload.len() as u16));
    assert(frame.skip(3) =~= payload);
}

/// A frame with one byte more or one byte less than an envelope is no
/// envelope.
pub proof fn lemma_envelope_length_exact(frame: Seq<u8>)
    ensures
        spec_open_envelope(frame) matches Ok((_, payload)) ==> (frame.len() == HEADER_BYTES
            + payload.len() && payload.len() <= MAX_PAYLOAD_BYTES),
{
}

} // verus!
