//! Decrypt (unwrap) data using a wrap key.

use crate::commands::{Command, Message, Response};
use crate::error::{DecodeError, SessionError};
use crate::object::{CommandType, ObjectId};
use crate::session::{dispatched, Connector, Primitives, Session};
use crate::wire::{
    lemma_u16_round_trip, read_u16_be, u16_from_be_bytes, u16_to_be_bytes, write_u16_be,
};
use vstd::prelude::*;
use vstd::slice::slice_to_vec;

verus! {

/// Decrypt (unwrap) data using a wrap key.
///
/// The command that is dispatched carries the key identifier and then the
/// data, unchanged.
pub fn unwrap_data<C: Connector, P: Primitives>(
    session: &mut Session<P>,
    connector: &mut C,
    key_id: ObjectId,
    data: Vec<u8>,
) -> (outcome: Result<UnwrapDataResponse, SessionError>)
    ensures
        dispatched(
            *old(session),
            *final(session),
            *old(connector),
            *final(connector),
            CommandType::UnwrapData.spec_to_u8(),
            UnwrapDataCommand::spec_encode(UnwrapDataCommandView { key_id, data: data@ }),
            outcome,
        ),
{
    session.send_encrypted_command(connector, UnwrapDataCommand { key_id, data })
}

/// Length in bytes of the key identifier that starts the request.
pub const UNWRAP_DATA_MIN_BYTES: usize = 2;

/// Request parameters for `commands::unwrap_data`
#[derive(Clone, Debug)]
pub struct UnwrapDataCommand {
    /// Key to unwrap the data with
    pub key_id: ObjectId,
    /// Data to be unwrapped
    pub data: Vec<u8>,
}

/// The request as plain values.
pub struct UnwrapDataCommandView {
    pub key_id: ObjectId,
    pub data: Seq<u8>,
}

impl View for UnwrapDataCommand {
    type V = UnwrapDataCommandView;

    open spec fn view(&self) -> UnwrapDataCommandView {
        UnwrapDataCommandView { key_id: self.key_id, data: self.data@ }
    }
}

impl Message for UnwrapDataCommand {
    open spec fn spec_encode(value: UnwrapDataCommandView) -> Seq<u8> {
        u16_to_be_bytes(value.key_id) + value.data
    }

    open spec fn spec_decode(data: Seq<u8>) -> Result<UnwrapDataCommandView, DecodeError> {
        if data.len() < UNWRAP_DATA_MIN_BYTES {
            Err(DecodeError::WrongLength { expected: UNWRAP_DATA_MIN_BYTES, actual: data.len() as usize })
        } else {
            Ok(UnwrapDataCommandView { key_id: u16_from_be_bytes(data), data: data.skip(2) })
        }
    }

    open spec fn spec_min_length() -> nat {
        UNWRAP_DATA_MIN_BYTES as nat
    }

    open spec fn spec_fixed_length() -> bool {
        false
    }

    proof fn lemma_round_trip(&self) {
        lemma_u16_round_trip(self.key_id);
        assert(Self::spec_encode(self@).skip(2) =~= self.data@);
    }

    proof fn lemma_length_checked(data: Seq<u8>) {
    }

    fn into_vec(self) -> (data: Vec<u8>) {
        let mut data: Vec<u8> = Vec::new();
        write_u16_be(&mut data, self.key_id);
        data.extend_from_slice(self.data.as_slice());
        data
    }

    fn parse(data: &[u8]) -> (parsed: Result<Self, DecodeError>) {
        if data.len() < UNWRAP_DATA_MIN_BYTES {
            return Err(DecodeError::WrongLength { expected: UNWRAP_DATA_MIN_BYTES, actual: data.len() });
        }
        let key_id = read_u16_be(&data[0..2]);
        let rest = slice_to_vec(&data[2..data.len()]);
        assert(rest@ =~= data@.skip(2));
        Ok(UnwrapDataCommand { key_id, data: rest })
    }
}

impl Command for UnwrapDataCommand {
    type ResponseType = UnwrapDataResponse;
}

/// Response from `commands::unwrap_data`: the raw data
#[derive(Clone, Debug)]
pub struct UnwrapDataResponse {
    /// Unwrapped data
    pub data: Vec<u8>,
}

impl View for UnwrapDataResponse {
    type V = Seq<u8>;

    open spec fn view(&self) -> Seq<u8> {
        self.data@
    }
}

impl Message for UnwrapDataResponse {
    open spec fn spec_encode(value: Seq<u8>) -> Seq<u8> {
        value
    }

    open spec fn spec_decode(data: Seq<u8>) -> Result<Seq<u8>, DecodeError> {
        Ok(data)
    }

    open spec fn spec_min_length() -> nat {
        0
    }

    open spec fn spec_fixed_length() -> bool {
        false
    }

    proof fn lemma_round_trip(&self) {
    }

    proof fn lemma_length_checked(data: Seq<u8>) {
    }

    fn into_vec(self) -> (data: Vec<u8>) {
        self.data
    }

    fn parse(data: &[u8]) -> (parsed: Result<Self, DecodeError>) {
        Ok(UnwrapDataResponse { data: slice_to_vec(data) })
    }
}

impl Response for UnwrapDataResponse {
    open spec fn spec_command_type() -> CommandType {
        CommandType::UnwrapData
    }

    fn command_type() -> (operation: CommandType) {
        CommandType::UnwrapData
    }
}

} // verus!
