//! Generate a wrap key for wrapping objects.

use crate::capability::CapabilitySet;
use crate::commands::{Command, Message, Response};
use crate::error::{DecodeError, SessionError};
use crate::object::{
    lemma_label_length, lemma_wrap_algorithm_round_trip, CommandType, Domain, ObjectId,
    ObjectLabel, WrapAlgorithm,
};
use crate::session::{dispatched, Connector, Primitives, Session};
use crate::wire::{
    lemma_u16_round_trip, lemma_u64_round_trip, read_u16_be, read_u64_be, u16_from_be_bytes,
    u16_to_be_bytes, u64_from_be_bytes, u64_to_be_bytes, write_u16_be, write_u64_be,
};
use vstd::prelude::*;

verus! {

/// Length in bytes of the request: key identifier, label, domains,
/// capabilities, algorithm and delegated capabilities.
pub const GENERATE_WRAP_KEY_BYTES: usize = 61;

/// Length in bytes of the response: the identifier of the new key.
pub const GENERATE_WRAP_KEY_RESPONSE_BYTES: usize = 2;

/// Generate a new wrap key within the device
///
/// The command that is dispatched carries the six arguments in the order
/// in which they are given. Whatever the capabilities are, it is the device
/// that accepts or refuses them.
pub fn generate_wrap_key<C: Connector, P: Primitives>(
    session: &mut Session<P>,
    connector: &mut C,
    key_id: ObjectId,
    label: ObjectLabel,
    domains: Domain,
    capabilities: CapabilitySet,
    algorithm: WrapAlgorithm,
    delegated_capabilities: CapabilitySet,
) -> (outcome: Result<GenerateWrapKeyResponse, SessionError>)
    ensures
        dispatched(
            *old(session),
            *final(session),
            *old(connector),
            *final(connector),
            CommandType::GenerateWrapKey.spec_to_u8(),
            GenerateWrapKeyCommand::spec_encode(
                GenerateWrapKeyCommandView {
                    key_id,
                    label: label@,
                    domains: domains@,
                    capabilities: capabilities@,
                    algorithm,
                    delegated_capabilities: delegated_capabilities@,
                },
            ),
            outcome,
        ),
{
    session.send_encrypted_command(
        connector,
        GenerateWrapKeyCommand {
            key_id,
            label,
            domains,
            capabilities,
            algorithm,
            delegated_capabilities,
        },
    )
}

/// Request parameters for `commands::generate_wrap_key`
#[derive(Clone, Copy, Debug)]
pub struct GenerateWrapKeyCommand {
    /// ID of the key
    pub key_id: ObjectId,
    /// Label for the key (40-bytes)
    pub label: ObjectLabel,
    /// Domain in which the key will be accessible
    pub domains: Domain,
    /// Capability of the key
    pub capabilities: CapabilitySet,
    /// Key algorithm
    pub algorithm: WrapAlgorithm,
    /// Capability of object import/export by the key
    pub delegated_capabilities: CapabilitySet,
}

/// The request as plain values.
pub struct GenerateWrapKeyCommandView {
    pub key_id: ObjectId,
    pub label: Seq<u8>,
    pub domains: u16,
    pub capabilities: u64,
    pub algorithm: WrapAlgorithm,
    pub delegated_capabilities: u64,
}

impl View for GenerateWrapKeyCommand {
    type V = GenerateWrapKeyCommandView;

    open spec fn view(&self) -> GenerateWrapKeyCommandView {
        GenerateWrapKeyCommandView {
            key_id: self.key_id,
            label: self.label@,
            domains: self.domains@,
            capabilities: self.capabilities@,
            algorithm: self.algorithm,
            delegated_capabilities: self.delegated_capabilities@,
        }
    }
}

impl Message for GenerateWrapKeyCommand {
    open spec fn spec_encode(value: GenerateWrapKeyCommandView) -> Seq<u8> {
        u16_to_be_bytes(value.key_id) + value.label + u16_to_be_bytes(value.domains)
            + u64_to_be_bytes(value.capabilities) + seq![value.algorithm.spec_to_u8()]
            + u64_to_be_bytes(value.delegated_capabilities)
    }

    open spec fn spec_decode(data: Seq<u8>) -> Result<GenerateWrapKeyCommandView, DecodeError> {
        if data.len() != GENERATE_WRAP_KEY_BYTES {
            Err(
                DecodeError::WrongLength {
                    expected: GENERATE_WRAP_KEY_BYTES,
                    actual: data.len() as usize,
                },
            )
        } else {
            match WrapAlgorithm::spec_from_u8(data[52]) {
                Ok(algorithm) => Ok(
                    GenerateWrapKeyCommandView {
                        key_id: u16_from_be_bytes(data),
                        label: data.subrange(2, 42),
                        domains: u16_from_be_bytes(data.subrange(42, 44)),
                        capabilities: u64_from_be_bytes(data.subrange(44, 52)),
                        algorithm,
                        delegated_capabilities: u64_from_be_bytes(data.subrange(53, 61)),
                    },
                ),
                Err(error) => Err(error),
            }
        }
    }

    open spec fn spec_min_length() -> nat {
        GENERATE_WRAP_KEY_BYTES as nat
    }

    open spec fn spec_fixed_length() -> bool {
        true
    }

    proof fn lemma_round_trip(&self) {
        let value = self@;
        let data = Self::spec_encode(value);
        lemma_label_length(self.label);
        lemma_u16_round_trip(value.key_id);
        lemma_u16_round_trip(value.domains);
        lemma_u64_round_trip(value.capabilities);
        lemma_u64_round_trip(value.delegated_capabilities);
        lemma_wrap_algorithm_round_trip(value.algorithm, 0);
        assert(data.len() == GENERATE_WRAP_KEY_BYTES);
        assert(data.subrange(2, 42) =~= value.label);
        assert(data.subrange(42, 44) =~= u16_to_be_bytes(value.domains));
        assert(data.subrange(44, 52) =~= u64_to_be_bytes(value.capabilities));
        assert(data.subrange(53, 61) =~= u64_to_be_bytes(value.delegated_capabilities));
        assert(data[52] == value.algorithm.spec_to_u8());
    }

    proof fn lemma_length_checked(data: Seq<u8>) {
    }

    fn into_vec(self) -> (data: Vec<u8>) {
        let mut data: Vec<u8> = Vec::with_capacity(GENERATE_WRAP_KEY_BYTES);
        write_u16_be(&mut data, self.key_id);
        data.extend_from_slice(self.label.as_slice());
        write_u16_be(&mut data, self.domains.bits());
        write_u64_be(&mut data, self.capabilities.to_bitfield());
        data.push(self.algorithm.to_u8());
        write_u64_be(&mut data, self.delegated_capabilities.to_bitfield());
        assert(data@ =~= Self::spec_encode(self@));
        data
    }

    fn parse(data: &[u8]) -> (parsed: Result<Self, DecodeError>) {
        if data.len() != GENERATE_WRAP_KEY_BYTES {
            return Err(
                DecodeError::WrongLength { expected: GENERATE_WRAP_KEY_BYTES, actual: data.len() },
            );
        }
        let algorithm = match WrapAlgorithm::from_u8(data[52]) {
            Ok(algorithm) => algorithm,
            Err(error) => {
                return Err(error);
            },
        };
        let label = match ObjectLabel::from_bytes(&data[2..42]) {
            Ok(label) => label,
            Err(error) => {
                return Err(error);
            },
        };
        Ok(
            GenerateWrapKeyCommand {
                key_id: read_u16_be(&data[0..2]),
                label,
                domains: Domain::from_bits(read_u16_be(&data[42..44])),
                capabilities: CapabilitySet::from_bits(read_u64_be(&data[44..52])),
                algorithm,
                delegated_capabilities: CapabilitySet::from_bits(read_u64_be(&data[53..61])),
            },
        )
    }
}

impl Command for GenerateWrapKeyCommand {
    type ResponseType = GenerateWrapKeyResponse;
}

/// Response from `commands::generate_wrap_key`
#[derive(Clone, Copy, Debug, PartialEq, Eq, Structural)]
pub struct GenerateWrapKeyResponse {
    /// ID of the key
    pub key_id: ObjectId,
}

impl View for GenerateWrapKeyResponse {
    type V = GenerateWrapKeyResponse;

    open spec fn view(&self) -> GenerateWrapKeyResponse {
        *self
    }
}

impl Message for GenerateWrapKeyResponse {
    open spec fn spec_encode(value: GenerateWrapKeyResponse) -> Seq<u8> {
        u16_to_be_bytes(value.key_id)
    }

    open spec fn spec_decode(data: Seq<u8>) -> Result<GenerateWrapKeyResponse, DecodeError> {
        if data.len() != GENERATE_WRAP_KEY_RESPONSE_BYTES {
            Err(
                DecodeError::WrongLength {
                    expected: GENERATE_WRAP_KEY_RESPONSE_BYTES,
                    actual: data.len() as usize,
                },
            )
        } else {
            Ok(GenerateWrapKeyResponse { key_id: u16_from_be_bytes(data) })
        }
    }

    open spec fn spec_min_length() -> nat {
        GENERATE_WRAP_KEY_RESPONSE_BYTES as nat
    }

    open spec fn spec_fixed_length() -> bool {
        true
    }

    proof fn lemma_round_trip(&self) {
        lemma_u16_round_trip(self.key_id);
    }

    proof fn lemma_length_checked(data: Seq<u8>) {
    }

    fn into_vec(self) -> (data: Vec<u8>) {
        let mut data: Vec<u8> = Vec::with_capacity(GENERATE_WRAP_KEY_RESPONSE_BYTES);
        write_u16_be(&mut data, self.key_id);
        assert(data@ =~= Self::spec_encode(self@));
        data
    }

    fn parse(data: &[u8]) -> (parsed: Result<Self, DecodeError>) {
        if data.len() != GENERATE_WRAP_KEY_RESPONSE_BYTES {
            return Err(
                DecodeError::WrongLength {
                    expected: GENERATE_WRAP_KEY_RESPONSE_BYTES,
                    actual: data.len(),
                },
            );
        }
        Ok(GenerateWrapKeyResponse { key_id: read_u16_be(data) })
    }
}

impl Response for GenerateWrapKeyResponse {
    open spec fn spec_command_type() -> CommandType {
        CommandType::GenerateWrapKey
    }

    fn command_type() -> (operation: CommandType) {
        CommandType::GenerateWrapKey
    }
}

} // verus!
