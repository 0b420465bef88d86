//! Encrypt (wrap) data using a wrap key.

use crate::commands::{Command, Message, Response};
use crate::error::{DecodeError, SessionError};
use crate::object::{CommandType, ObjectId};
use crate::session::{dispatched, Connector, Primitives, Session};
use crate::wire::{
    lemma_u16_round_trip, read_u16_be, u16_from_be_bytes, u16_to_be_bytes, write_u16_be,
};
use vstd::prelude::*;
use vstd::slice::slice_to_vec;

verus! {

/// Encrypt (wrap) data using a wrap key.
///
/// The command that is dispatched carries the key identifier and then the
/// data, unchanged.
pub fn wrap_data<C: Connector, P: Primitives>(
    session: &mut Session<P>,
    connector: &mut C,
    key_id: ObjectId,
    data: Vec<u8>,
) -> (outcome: Result<WrapDataResponse, SessionError>)
    ensures
        dispatched(
            *old(session),
            *final(session),
            *old(connector),
            *final(connector),
            CommandType::WrapData.spec_to_u8(),
            WrapDataCommand::spec_encode(WrapDataCommandView { key_id, data: data@ }),
            outcome,
        ),
{
    session.send_encrypted_command(connector, WrapDataCommand { key_id, data })
}

/// Length in bytes of the key identifier that starts the request.
pub const WRAP_DATA_MIN_BYTES: usize = 2;

/// Request parameters for `commands::wrap_data`
#[derive(Clone, Debug)]
pub struct WrapDataCommand {
    /// Key to wrap the data with
    pub key_id: ObjectId,
    /// Data to be wrapped
    pub data: Vec<u8>,
}

/// The request as plain values.
pub struct WrapDataCommandView {
    pub key_id: ObjectId,
    pub data: Seq<u8>,
}

impl View for WrapDataCommand {
    type V = WrapDataCommandView;

    open spec fn view(&self) -> WrapDataCommandView {
        WrapDataCommandView { key_id: self.key_id, data: self.data@ }
    }
}

impl Message for WrapDataCommand {
    open spec fn spec_encode(value: WrapDataCommandView) -> Seq<u8> {
        u16_to_be_bytes(value.key_id) + value.data
    }

    open spec fn spec_decode(data: Seq<u8>) -> Result<WrapDataCommandView, DecodeError> {
        if data.len() < WRAP_DATA_MIN_BYTES {
            Err(DecodeError::WrongLength { expected: WRAP_DATA_MIN_BYTES, actual: data.len() as usize })
        } else {
            Ok(WrapDataCommandView { key_id: u16_from_be_bytes(data), data: data.skip(2) })
        }
    }

    open spec fn spec_min_length() -> nat {
        WRAP_DATA_MIN_BYTES as nat
    }

    open spec fn spec_fixed_length() -> bool {
        false
    }

    proof fn lemma_round_trip(&self) {
        lemma_u16_round_trip(self.key_id);
        assert(Self::spec_encode(self@).skip(2) =~= self.data@);
    }

    proof fn lemma_length_checked(data: Seq<u8>) {
    }

    fn into_vec(self) -> (data: Vec<u8>) {
        let mut data: Vec<u8> = Vec::new();
        write_u16_be(&mut data, self.key_id);
        data.extend_from_slice(self.data.as_slice());
        data
    }

    fn parse(data: &[u8]) -> (parsed: Result<Self, DecodeError>) {
        if data.len() < WRAP_DATA_MIN_BYTES {
            return Err(DecodeError::WrongLength { expected: WRAP_DATA_MIN_BYTES, actual: data.len() });
        }
        let key_id = read_u16_be(&data[0..2]);
        let rest = slice_to_vec(&data[2..data.len()]);
        assert(rest@ =~= data@.skip(2));
        Ok(WrapDataCommand { key_id, data: rest })
    }
}

impl Command for WrapDataCommand {
    type ResponseType = WrapDataResponse;
}

/// Response from `commands::wrap_data`: the wrapped data
#[derive(Clone, Debug)]
pub struct WrapDataResponse {
    /// Data wrapped by the wrap key
    pub wrapped_data: Vec<u8>,
}

impl View for WrapDataResponse {
    type V = Seq<u8>;

    open spec fn view(&self) -> Seq<u8> {
        self.wrapped_data@
    }
}

impl Message for WrapDataResponse {
    open spec fn spec_encode(value: Seq<u8>) -> Seq<u8> {
        value
    }

    open spec fn spec_decode(data: Seq<u8>) -> Result<Seq<u8>, DecodeError> {
        Ok(data)
    }

    open spec fn spec_min_length() -> nat {
        0
    }

    open spec fn spec_fixed_length() -> bool {
        false
    }

    proof fn lemma_round_trip(&self) {
    }

    proof fn lemma_length_checked(data: Seq<u8>) {
    }

    fn into_vec(self) -> (data: Vec<u8>) {
        self.wrapped_data
    }

    fn parse(data: &[u8]) -> (parsed: Result<Self, DecodeError>) {
        Ok(WrapDataResponse { wrapped_data: slice_to_vec(data) })
    }
}

impl Response for WrapDataResponse {
    open spec fn spec_command_type() -> CommandType {
        CommandType::WrapData
    }

    fn command_type() -> (operation: CommandType) {
        CommandType::WrapData
    }
}

} // verus!
