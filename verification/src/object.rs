//! The plain values that commands and responses are made of.

use crate::error::DecodeError;
use vstd::prelude::*;

verus! {

/// Identifier of an object in the device: two bytes on the wire, most
/// significant first.
pub type ObjectId = u16;

/// Length in bytes of an object label.
pub const LABEL_BYTES: usize = 40;

/// The kind of an object: one byte on the wire.
#[derive(Clone, Copy, Debug, PartialEq, Eq, Hash, Structural)]
pub enum ObjectType {
    /// Raw data
    Opaque,
    /// Key for authenticating sessions
    AuthKey,
    /// Private key of an asymmetric algorithm
    Asymmetric,
    /// Key for wrapping other objects
    WrapKey,
    /// Key for computing and verifying HMACs
    HmacKey,
    /// Template for SSH certificates
    Template,
    /// Key for one-time-password AEADs
    OtpAeadKey,
}

impl ObjectType {
    /// The code of this object type.
    pub open spec fn spec_to_u8(self) -> u8 {
        match self {
            ObjectType::Opaque => 0x01,
            ObjectType::AuthKey => 0x02,
            ObjectType::Asymmetric => 0x03,
            ObjectType::WrapKey => 0x04,
            ObjectType::HmacKey => 0x05,
            ObjectType::Template => 0x06,
            ObjectType::OtpAeadKey => 0x07,
        }
    }

    /// The object type that `code` stands for, if any.
    pub open spec fn spec_from_u8(code: u8) -> Result<ObjectType, DecodeError> {
        if code == 0x01 {
            Ok(ObjectType::Opaque)
        } else if code == 0x02 {
            Ok(ObjectType::AuthKey)
        } else if code == 0x03 {
            Ok(ObjectType::Asymmetric)
        } else if code == 0x04 {
            Ok(ObjectType::WrapKey)
        } else if code == 0x05 {
            Ok(ObjectType::HmacKey)
        } else if code == 0x06 {
            Ok(ObjectType::Template)
        } else if code == 0x07 {
            Ok(ObjectType::OtpAeadKey)
        } else {
            Err(DecodeError::MalformedField { value: code })
        }
    }

    /// Serialize this object type as a byte.
    pub fn to_u8(self) -> (code: u8)
        ensures
            code == self.spec_to_u8(),
    {
        match self {
            ObjectType::Opaque => 0x01,
            ObjectType::AuthKey => 0x02,
            ObjectType::Asymmetric => 0x03,
            ObjectType::WrapKey => 0x04,
            ObjectType::HmacKey => 0x05,
            ObjectType::Template => 0x06,
            ObjectType::OtpAeadKey => 0x07,
        }
    }

    /// Convert a byte into an object type. A byte that is no object type's
    /// code is reported as a malformed field.
    pub fn from_u8(code: u8) -> (parsed: Result<ObjectType, DecodeError>)
        ensures
            parsed == ObjectType::spec_from_u8(code),
    {
        match code {
            0x01 => Ok(ObjectType::Opaque),
            0x02 => Ok(ObjectType::AuthKey),
            0x03 => Ok(ObjectType::Asymmetric),
            0x04 => Ok(ObjectType::WrapKey),
            0x05 => Ok(ObjectType::HmacKey),
            0x06 => Ok(ObjectType::Template),
            0x07 => Ok(ObjectType::OtpAeadKey),
            _ => Err(DecodeError::MalformedField { value: code }),
        }
    }
}

/// The code of an object type reads back as that object type, and only
/// codes of object types are read.
pub proof fn lemma_object_type_round_trip(object_type: ObjectType, code: u8)
    ensures
        ObjectType::spec_from_u8(object_type.spec_to_u8()) == Ok::<ObjectType, DecodeError>(
            object_type,
        ),
        ObjectType::spec_from_u8(code) matches Ok(parsed) ==> parsed.spec_to_u8() == code,
{
}

/// The algorithm of a wrap key: one byte on the wire.
#[derive(Clone, Copy, Debug, PartialEq, Eq, Hash, Structural)]
pub enum WrapAlgorithm {
    /// AES-CCM with a 128-bit key
    Aes128Ccm,
    /// AES-CCM with a 192-bit key
    Aes192Ccm,
    /// AES-CCM with a 256-bit key
    Aes256Ccm,
}

impl WrapAlgorithm {
    /// The code of this algorithm.
    pub open spec fn spec_to_u8(self) -> u8 {
        match self {
            WrapAlgorithm::Aes128Ccm => 0x1d,
            WrapAlgorithm::Aes192Ccm => 0x29,
            WrapAlgorithm::Aes256Ccm => 0x2a,
        }
    }

    /// The algorithm that `code` stands for, if any.
    pub open spec fn spec_from_u8(code: u8) -> Result<WrapAlgorithm, DecodeError> {
        if code == 0x1d {
            Ok(WrapAlgorithm::Aes128Ccm)
        } else if code == 0x29 {
            Ok(WrapAlgorithm::Aes192Ccm)
        } else if code == 0x2a {
            Ok(WrapAlgorithm::Aes256Ccm)
        } else {
            Err(DecodeError::MalformedField { value: code })
        }
    }

    /// Serialize this algorithm as a byte.
    pub fn to_u8(self) -> (code: u8)
        ensures
            code == self.spec_to_u8(),
    {
        match self {
            WrapAlgorithm::Aes128Ccm => 0x1d,
            WrapAlgorithm::Aes192Ccm => 0x29,
            WrapAlgorithm::Aes256Ccm => 0x2a,
        }
    }

    /// Convert a byte into an algorithm. A byte that is no wrap algorithm's
    /// code is reported as a malformed field.
    pub fn from_u8(code: u8) -> (parsed: Result<WrapAlgorithm, DecodeError>)
        ensures
            parsed == WrapAlgorithm::spec_from_u8(code),
    {
        match code {
            0x1d => Ok(WrapAlgorithm::Aes128Ccm),
            0x29 => Ok(WrapAlgorithm::Aes192Ccm),
            0x2a => Ok(WrapAlgorithm::Aes256Ccm),
            _ => Err(DecodeError::MalformedField { value: code }),
        }
    }
}

/// The code of a wrap algorithm reads back as that algorithm, and only
/// codes of wrap algorithms are read.
pub proof fn lemma_wrap_algorithm_round_trip(algorithm: WrapAlgorithm, code: u8)
    ensures
        WrapAlgorithm::spec_from_u8(algorithm.spec_to_u8()) == Ok::<WrapAlgorithm, DecodeError>(
            algorithm,
        ),
        WrapAlgorithm::spec_from_u8(code) matches Ok(parsed) ==> parsed.spec_to_u8() == code,
{
}

/// The operations of the device that this library frames, each with the
/// identifier that tags its request and its response on the wire.
#[derive(Clone, Copy, Debug, PartialEq, Eq, Hash, Structural)]
pub enum CommandType {
    /// Export an object under a wrap key
    ExportWrapped,
    /// Delete an object
    DeleteObject,
    /// Generate a wrap key within the device
    GenerateWrapKey,
    /// Encrypt data with a wrap key
    WrapData,
    /// Decrypt data with a wrap key
    UnwrapData,
}

impl CommandType {
    /// The operation identifier.
    pub open spec fn spec_to_u8(self) -> u8 {
        match self {
            CommandType::ExportWrapped => 0x4a,
            CommandType::DeleteObject => 0x58,
            CommandType::GenerateWrapKey => 0x5b,
            CommandType::WrapData => 0x68,
            CommandType::UnwrapData => 0x69,
        }
    }

    /// Serialize this operation as its identifier.
    pub fn to_u8(self) -> (code: u8)
        ensures
            code == self.spec_to_u8(),
    {
        match self {
            CommandType::ExportWrapped => 0x4a,
            CommandType::DeleteObject => 0x58,
            CommandType::GenerateWrapKey => 0x5b,
            CommandType::WrapData => 0x68,
            CommandType::UnwrapData => 0x69,
        }
    }
}

/// The domains in which an object is accessible: a 16-bit field, one bit
/// per domain, two bytes on the wire.
#[derive(Clone, Copy, Debug, PartialEq, Eq, Hash, Structural)]
pub struct Domain {
    bits: u16,
}

impl View for Domain {
    type V = u16;

    closed spec fn view(&self) -> u16 {
        self.bits
    }
}

impl Domain {
    /// Wraps a 16-bit field. Every value is accepted.
    pub fn from_bits(bits: u16) -> (domain: Domain)
        ensures
            domain@ == bits,
    {
        Domain { bits }
    }

    /// The field as a number.
    pub fn bits(&self) -> (bits: u16)
        ensures
            bits == self@,
    {
        self.bits
    }
}

/// The label of an object: a field of exactly forty bytes.
#[derive(Clone, Copy, Debug)]
pub struct ObjectLabel {
    bytes: [u8; LABEL_BYTES],
}

impl View for ObjectLabel {
    type V = Seq<u8>;

    closed spec fn view(&self) -> Seq<u8> {
        self.bytes@
    }
}

impl ObjectLabel {
    /// Makes a label of forty bytes.
    pub fn new(bytes: [u8; LABEL_BYTES]) -> (label: ObjectLabel)
        ensures
            label@ == bytes@,
    {
        ObjectLabel { bytes }
    }

    /// Reads a label from exactly forty bytes. Any other length is a length
    /// error.
    pub fn from_bytes(bytes: &[u8]) -> (parsed: Result<ObjectLabel, DecodeError>)
        ensures
            bytes@.len() == LABEL_BYTES ==> (parsed matches Ok(label) && label@ == bytes@),
            bytes@.len() != LABEL_BYTES ==> parsed == Err::<ObjectLabel, DecodeError>(
                DecodeError::WrongLength { expected: LABEL_BYTES, actual: bytes@.len() as usize },
            ),
    {
        if bytes.len() != LABEL_BYTES {
            return Err(DecodeError::WrongLength { expected: LABEL_BYTES, actual: bytes.len() });
        }
        let mut label = [0u8; LABEL_BYTES];
        let mut i: usize = 0;
        while i < LABEL_BYTES
            invariant
                i <= LABEL_BYTES,
                bytes@.len() == LABEL_BYTES,
                forall|j: int| 0 <= j < i ==> label@[j] == bytes@[j],
            decreases LABEL_BYTES - i,
        {
            label[i] = bytes[i];
            i += 1;
        }
        assert(label@ =~= bytes@);
        Ok(ObjectLabel { bytes: label })
    }

    /// The forty bytes of the label.
    pub fn as_slice(&self) -> (bytes: &[u8])
        ensures
            bytes@ == self@,
    {
        self.bytes.as_slice()
    }
}

/// A label is forty bytes long.
pub proof fn lemma_label_length(label: ObjectLabel)
    ensures
        label@.len() == LABEL_BYTES,
{
}

} // verus!
