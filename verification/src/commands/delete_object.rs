//! Delete an object of the given type.

use crate::commands::{Command, Message, Response};
use crate::error::DecodeError;
use crate::object::{CommandType, ObjectId, ObjectType};
use crate::wire::{
    lemma_u16_round_trip, read_u16_be, u16_from_be_bytes, u16_to_be_bytes, write_u16_be,
};
use vstd::prelude::*;

verus! {

/// Length in bytes of the request: the object's identifier and its type.
pub const DELETE_OBJECT_BYTES: usize = 3;

/// Request data for `CommandType::DeleteObject`
#[derive(Clone, Copy, Debug, PartialEq, Eq, Structural)]
pub struct DeleteObjectCommand {
    /// Object ID to delete
    pub object_id: ObjectId,
    /// Type of object to delete
    pub object_type: ObjectType,
}

impl View for DeleteObjectCommand {
    type V = DeleteObjectCommand;

    open spec fn view(&self) -> DeleteObjectCommand {
        *self
    }
}

impl Message for DeleteObjectCommand {
    open spec fn spec_encode(value: DeleteObjectCommand) -> Seq<u8> {
        u16_to_be_bytes(value.object_id) + seq![value.object_type.spec_to_u8()]
    }

    open spec fn spec_decode(data: Seq<u8>) -> Result<DeleteObjectCommand, DecodeError> {
        if data.len() != DELETE_OBJECT_BYTES {
            Err(
                DecodeError::WrongLength {
                    expected: DELETE_OBJECT_BYTES,
                    actual: data.len() as usize,
                },
            )
        } else {
            match ObjectType::spec_from_u8(data[2]) {
                Ok(object_type) => Ok(
                    DeleteObjectCommand { object_id: u16_from_be_bytes(data), object_type },
                ),
                Err(error) => Err(error),
            }
        }
    }

    open spec fn spec_min_length() -> nat {
        DELETE_OBJECT_BYTES as nat
    }

    open spec fn spec_fixed_length() -> bool {
        true
    }

    proof fn lemma_round_trip(&self) {
        lemma_u16_round_trip(self.object_id);
    }

    proof fn lemma_length_checked(data: Seq<u8>) {
    }

    /// Serialize data
    fn into_vec(self) -> (data: Vec<u8>) {
        let mut data: Vec<u8> = Vec::with_capacity(DELETE_OBJECT_BYTES);
        write_u16_be(&mut data, self.object_id);
        data.push(self.object_type.to_u8());
        assert(data@ =~= Self::spec_encode(self@));
        data
    }

    /// Deserialize data
    fn parse(data: &[u8]) -> (parsed: Result<Self, DecodeError>) {
        if data.len() != DELETE_OBJECT_BYTES {
            return Err(
                DecodeError::WrongLength { expected: DELETE_OBJECT_BYTES, actual: data.len() },
            );
        }
        let object_id = read_u16_be(&data[0..2]);
        match ObjectType::from_u8(data[2]) {
            Ok(object_type) => Ok(DeleteObjectCommand { object_id, object_type }),
            Err(error) => Err(error),
        }
    }
}

impl Command for DeleteObjectCommand {
    type ResponseType = DeleteObjectResponse;
}

/// Response from `CommandType::DeleteObject`: it carries no data.
#[derive(Clone, Copy, Debug, PartialEq, Eq, Structural)]
pub struct DeleteObjectResponse {}

impl View for DeleteObjectResponse {
    type V = DeleteObjectResponse;

    open spec fn view(&self) -> DeleteObjectResponse {
        *self
    }
}

impl Message for DeleteObjectResponse {
    open spec fn spec_encode(value: DeleteObjectResponse) -> Seq<u8> {
        Seq::empty()
    }

    open spec fn spec_decode(data: Seq<u8>) -> Result<DeleteObjectResponse, DecodeError> {
        if data.len() != 0 {
            Err(DecodeError::WrongLength { expected: 0, actual: data.len() as usize })
        } else {
            Ok(DeleteObjectResponse {  })
        }
    }

    open spec fn spec_min_length() -> nat {
        0
    }

    open spec fn spec_fixed_length() -> bool {
        true
    }

    proof fn lemma_round_trip(&self) {
    }

    proof fn lemma_length_checked(data: Seq<u8>) {
    }

    fn into_vec(self) -> (data: Vec<u8>) {
        Vec::new()
    }

    fn parse(data: &[u8]) -> (parsed: Result<Self, DecodeError>) {
        if data.len() != 0 {
            return Err(DecodeError::WrongLength { expected: 0, actual: data.len() });
        }
        Ok(DeleteObjectResponse {  })
    }
}

impl Response for DeleteObjectResponse {
    open spec fn spec_command_type() -> CommandType {
        CommandType::DeleteObject
    }

    fn command_type() -> (operation: CommandType) {
        CommandType::DeleteObject
    }
}

} // verus!
