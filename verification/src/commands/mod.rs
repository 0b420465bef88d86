//! Commands and responses: typed messages, each with a flat byte form and
//! the identifier of the operation it belongs to.

pub mod delete_object;
pub mod export_wrapped;
pub mod generate_wrap_key;
pub mod unwrap_data;
pub mod wrap_data;

pub use self::delete_object::{DeleteObjectCommand, DeleteObjectResponse};
pub use self::export_wrapped::{export_wrapped, ExportWrappedCommand, ExportWrappedResponse};
pub use self::generate_wrap_key::{
    generate_wrap_key, GenerateWrapKeyCommand, GenerateWrapKeyResponse,
};
pub use self::unwrap_data::{unwrap_data, UnwrapDataCommand, UnwrapDataResponse};
pub use self::wrap_data::{wrap_data, WrapDataCommand, WrapDataResponse};

use crate::error::DecodeError;
use crate::object::CommandType;
use vstd::prelude::*;

verus! {

/// A typed message with a flat byte form.
///
/// The byte form is given by two functions on the message's view, and every
/// implementation proves that decoding inverts encoding and that no payload
/// of a wrong length decodes.
pub trait Message: Sized + View {
    /// The bytes that encode a message.
    spec fn spec_encode(value: Self::V) -> Seq<u8>;

    /// The message that a payload holds, or why it holds none.
    spec fn spec_decode(data: Seq<u8>) -> Result<Self::V, DecodeError>;

    /// The least length of a payload of this message.
    spec fn spec_min_length() -> nat;

    /// Whether every payload of this message has the least length.
    spec fn spec_fixed_length() -> bool;

    /// Decoding the encoding of a message gives the message back.
    proof fn lemma_round_trip(&self)
        ensures
            Self::spec_decode(Self::spec_encode(self@)) == Ok::<Self::V, DecodeError>(self@),
    ;

    /// A payload decodes only if its length fits: a shorter one never does,
    /// and where the length is fixed a longer one does not either. The
    /// error names the length that was expected and the one that was met.
    proof fn lemma_length_checked(data: Seq<u8>)
        ensures
            data.len() < Self::spec_min_length() || (Self::spec_fixed_length() && data.len()
                != Self::spec_min_length()) ==> Self::spec_decode(data) == Err::<
                Self::V,
                DecodeError,
            >(
                DecodeError::WrongLength {
                    expected: Self::spec_min_length() as usize,
                    actual: data.len() as usize,
                },
            ),
    ;

    /// Serialize the message.
    fn into_vec(self) -> (data: Vec<u8>)
        ensures
            data@ == Self::spec_encode(self@),
    ;

    /// Deserialize a message from a payload.
    fn parse(data: &[u8]) -> (parsed: Result<Self, DecodeError>)
        ensures
            match parsed {
                Ok(value) => Self::spec_decode(data@) == Ok::<Self::V, DecodeError>(value@),
                Err(error) => Self::spec_decode(data@) == Err::<Self::V, DecodeError>(error),
            },
    ;
}

/// A response of the device.
pub trait Response: Message {
    /// The operation this response belongs to.
    spec fn spec_command_type() -> CommandType;

    /// The operation this response belongs to.
    fn command_type() -> (operation: CommandType)
        ensures
            operation == Self::spec_command_type(),
    ;
}

/// A command to the device. Its response type is fixed, and with it the
/// operation identifier that the command and the response share.
pub trait Command: Message {
    /// The response that the device gives to this command.
    type ResponseType: Response;

    /// The operation this command asks for.
    fn command_type() -> (operation: CommandType)
        ensures
            operation == <Self::ResponseType as Response>::spec_command_type(),
    {
        <Self::ResponseType as Response>::command_type()
    }
}

} // verus!
