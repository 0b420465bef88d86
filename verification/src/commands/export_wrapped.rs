//! Export an object in encrypted form, wrapped under a wrap key.

use crate::commands::{Command, Message, Response};
use crate::error::{DecodeError, SessionError};
use crate::object::{CommandType, ObjectId, ObjectType};
use crate::session::{dispatched, Connector, Primitives, Session};
use crate::wire::{
    lemma_u16_round_trip, read_u16_be, u16_from_be_bytes, u16_to_be_bytes, write_u16_be,
};
use vstd::prelude::*;
use vstd::slice::slice_to_vec;

verus! {

/// Length in bytes of the request: the wrap key's identifier, the object's
/// type and the object's identifier.
pub const EXPORT_WRAPPED_BYTES: usize = 5;

/// Get an object in encrypted form (wrapped)
///
/// The command that is dispatched carries the identifier of the wrap key,
/// the type of the object and the identifier of the object, in that order.
pub fn export_wrapped<C: Connector, P: Primitives>(
    session: &mut Session<P>,
    connector: &mut C,
    wrapkey_id: ObjectId,
    object_type: ObjectType,
    object_id: ObjectId,
) -> (outcome: Result<ExportWrappedResponse, SessionError>)
    ensures
        dispatched(
            *old(session),
            *final(session),
            *old(connector),
            *final(connector),
            CommandType::ExportWrapped.spec_to_u8(),
            ExportWrappedCommand::spec_encode(
                ExportWrappedCommand { wrapkey_id, object_type, object_id },
            ),
            outcome,
        ),
{
    session.send_encrypted_command(
        connector,
        ExportWrappedCommand { wrapkey_id, object_type, object_id },
    )
}

/// Request parameters for `commands::export_wrapped`
#[derive(Clone, Copy, Debug, PartialEq, Eq, Structural)]
pub struct ExportWrappedCommand {
    /// ID of wrapkey
    pub wrapkey_id: ObjectId,
    /// Type of object to wrap
    pub object_type: ObjectType,
    /// ID of object to wrap
    pub object_id: ObjectId,
}

impl View for ExportWrappedCommand {
    type V = ExportWrappedCommand;

    open spec fn view(&self) -> ExportWrappedCommand {
        *self
    }
}

impl Message for ExportWrappedCommand {
    open spec fn spec_encode(value: ExportWrappedCommand) -> Seq<u8> {
        u16_to_be_bytes(value.wrapkey_id) + seq![value.object_type.spec_to_u8()] + u16_to_be_bytes(
            value.object_id,
        )
    }

    open spec fn spec_decode(data: Seq<u8>) -> Result<ExportWrappedCommand, DecodeError> {
        if data.len() != EXPORT_WRAPPED_BYTES {
            Err(
                DecodeError::WrongLength {
                    expected: EXPORT_WRAPPED_BYTES,
                    actual: data.len() as usize,
                },
            )
        } else {
            match ObjectType::spec_from_u8(data[2]) {
                Ok(object_type) => Ok(
                    ExportWrappedCommand {
                        wrapkey_id: u16_from_be_bytes(data),
                        object_type,
                        object_id: u16_from_be_bytes(data.subrange(3, 5)),
                    },
                ),
                Err(error) => Err(error),
            }
        }
    }

    open spec fn spec_min_length() -> nat {
        EXPORT_WRAPPED_BYTES as nat
    }

    open spec fn spec_fixed_length() -> bool {
        true
    }

    proof fn lemma_round_trip(&self) {
        lemma_u16_round_trip(self.wrapkey_id);
        lemma_u16_round_trip(self.object_id);
        let data = Self::spec_encode(self@);
        assert(data.subrange(3, 5) =~= u16_to_be_bytes(self.object_id));
    }

    proof fn lemma_length_checked(data: Seq<u8>) {
    }

    fn into_vec(self) -> (data: Vec<u8>) {
        let mut data: Vec<u8> = Vec::with_capacity(EXPORT_WRAPPED_BYTES);
        write_u16_be(&mut data, self.wrapkey_id);
        data.push(self.object_type.to_u8());
        write_u16_be(&mut data, self.object_id);
        assert(data@ =~= Self::spec_encode(self@));
        data
    }

    fn parse(data: &[u8]) -> (parsed: Result<Self, DecodeError>) {
        if data.len() != EXPORT_WRAPPED_BYTES {
            return Err(
                DecodeError::WrongLength { expected: EXPORT_WRAPPED_BYTES, actual: data.len() },
            );
        }
        let wrapkey_id = read_u16_be(&data[0..2]);
        let object_id = read_u16_be(&data[3..5]);
        match ObjectType::from_u8(data[2]) {
            Ok(object_type) => Ok(ExportWrappedCommand { wrapkey_id, object_type, object_id }),
            Err(error) => Err(error),
        }
    }
}

impl Command for ExportWrappedCommand {
    type ResponseType = ExportWrappedResponse;
}

/// Response from `commands::export_wrapped`
#[derive(Clone, Debug)]
pub struct ExportWrappedResponse {
    /// Nonce with wrapped data
    pub data: Vec<u8>,
}

impl View for ExportWrappedResponse {
    type V = Seq<u8>;

    open spec fn view(&self) -> Seq<u8> {
        self.data@
    }
}

impl Message for ExportWrappedResponse {
    open spec fn spec_encode(value: Seq<u8>) -> Seq<u8> {
        value
    }

    open spec fn spec_decode(data: Seq<u8>) -> Result<Seq<u8>, DecodeError> {
        Ok(data)
    }

    open spec fn spec_min_length() -> nat {
        0
    }

    open spec fn spec_fixed_length() -> bool {
        false
    }

    proof fn lemma_round_trip(&self) {
    }

    proof fn lemma_length_checked(data: Seq<u8>) {
    }

    fn into_vec(self) -> (data: Vec<u8>) {
        self.data
    }

    fn parse(data: &[u8]) -> (parsed: Result<Self, DecodeError>) {
        Ok(ExportWrappedResponse { data: slice_to_vec(data) })
    }
}

impl Response for ExportWrappedResponse {
    open spec fn spec_command_type() -> CommandType {
        CommandType::ExportWrapped
    }

    fn command_type() -> (operation: CommandType) {
        CommandType::ExportWrapped
    }
}

} // verus!
