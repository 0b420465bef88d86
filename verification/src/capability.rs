//! Capabilities: the permission bits that say which operations a key or a
//! session may perform.
//!
//! A [`Capability`] is one named bit. A [`CapabilitySet`] is a whole 64-bit
//! field as it travels on the wire: any union of bits, named or not.

use crate::error::DecodeError;
use crate::wire::{
    lemma_u64_round_trip, read_u64_be, u64_from_be_bytes, u64_to_be_bytes, write_u64_be,
};
use vstd::prelude::*;

verus! {

/// Length in bytes of an encoded capability field.
pub const CAPABILITY_BYTES: usize = 8;

/// The union of every named capability bit.
pub const NAMED_BITS: u64 = 0x3fff_ffff_ffff;

/// Object attributes specifying which operations are allowed to be
/// performed: each is one bit of the capability field.
#[allow(non_camel_case_types)]
#[derive(Clone, Copy, Debug, PartialEq, Eq, Hash, Structural)]
pub enum Capability {
    /// asymmetric_decrypt_ecdh: perform ECDH operation
    ASYMMETRIC_DECRYPT_ECDH,
    /// asymmetric_decrypt_oaep: perform RSA-OAEP decryption
    ASYMMETRIC_DECRYPT_OAEP,
    /// asymmetric_decrypt_pkcs: perform RSA-PKCS1v1.5 decryption
    ASYMMETRIC_DECRYPT_PKCS,
    /// asymmetric_gen: generate asymmetric objects
    ASYMMETRIC_GEN,
    /// asymmetric_sign_ecdsa: compute ECDSA digital signature
    ASYMMETRIC_SIGN_ECDSA,
    /// asymmetric_sign_eddsa: compute EdDSA (i.e. Ed25519) digital signature
    ASYMMETRIC_SIGN_EDDSA,
    /// asymmetric_sign_pkcs: compute RSA-PKCS1v1.5 digital signature
    ASYMMETRIC_SIGN_PKCS,
    /// asymmetric_sign_pss: compute RSA-PSS digital signature
    ASYMMETRIC_SIGN_PSS,
    /// attest: create attestation (i.e. X.509 certificate) about an asymmetric object
    ATTEST,
    /// audit: read the log store
    AUDIT,
    /// delete_asymmetric: delete asymmetric key objects
    DELETE_ASYMMETRIC,
    /// delete_authkey: delete AuthKey objects
    DELETE_AUTHKEY,
    /// delete_hmac_key: delete HMACKey objects
    DELETE_HMACKEY,
    /// delete_opaque: delete opaque objects
    DELETE_OPAQUE,
    /// delete_otp_aead_key: delete OTPAEADKey objects
    DELETE_OTP_AEAD_KEY,
    /// delete_template: delete template objects
    DELETE_TEMPLATE,
    /// delete_wrap_key: delete WrapKey objects
    DELETE_WRAPKEY,
    /// export_under_wrap: mark an object as exportable under keywrap
    EXPORT_UNDER_WRAP,
    /// export_wrapped: export objects under keywrap
    EXPORT_WRAPPED,
    /// generate_otp_aead_key: generate OTPAEADKey objects
    GENERATE_OTP_AEAD_KEY,
    /// generate_wrapkey: generate wrapkey objects
    GENERATE_WRAPKEY,
    /// get_opaque: read opaque objects
    GET_OPAQUE,
    /// get_option: read device-global options
    GET_OPTION,
    /// get_randomness: extract random bytes
    GET_RANDOMNESS,
    /// get_template: read template objects
    GET_TEMPLATE,
    /// hmackey_generate: generate HMACKey objects
    HMACKEY_GENERATE,
    /// hmac_data: compute HMAC for data
    HMAC_DATA,
    /// hmac_verify: verify HMAC for data
    HMAC_VERIFY,
    /// import_wrapped: import keywrapped objects
    IMPORT_WRAPPED,
    /// otp_aead_create: create an OTP AEAD
    OTP_AEAD_CREATE,
    /// otp_aead_random: create an OTP AEAD from random data
    OTP_AEAD_RANDOM,
    /// otp_aead_rewrap_from: rewrap AEADs from one OTPAEADKey Object to another
    OTP_AEAD_REWRAP_FROM,
    /// otp_aead_rewrap_to: rewrap AEADs to one OTPAEADKey Object from another
    OTP_AEAD_REWRAP_TO,
    /// otp_decrypt: decrypt OTP
    OTP_DECRYPT,
    /// put_asymmetric: write asymmetric objects
    PUT_ASYMMETRIC,
    /// put_authkey: write AuthKey objects
    PUT_AUTHKEY,
    /// put_hmackey: write HMACKey objects
    PUT_HMACKEY,
    /// put_opaque: Write Opaque Objects
    PUT_OPAQUE,
    /// put_option: write device-global options
    PUT_OPTION,
    /// put_otp_aead_key: write OTPAEADKey objects
    PUT_OTP_AEAD_KEY,
    /// put_template: write template objects
    PUT_TEMPLATE,
    /// put_wrapkey: write WrapKey objects
    PUT_WRAPKEY,
    /// reset: factory reset the device
    RESET,
    /// ssh_certify: sign SSH certificates
    SSH_CERTIFY,
    /// unwrap_data: unwrap user-provided data
    UNWRAP_DATA,
    /// wrap_data: wrap user-provided data
    WRAP_DATA,
}

/// True when exactly one bit of `value` is set.
pub open spec fn is_single_bit(value: u64) -> bool {
    value != 0 && value & ((value - 1) as u64) == 0
}

/// The test a named capability has to pass to be a member of `bits`.
pub open spec fn is_set_in(bits: u64) -> spec_fn(Capability) -> bool {
    |capability: Capability| bits & capability.spec_bits() != 0
}

/// The named capabilities whose bit is set in `bits`, in catalogue order.
pub open spec fn members_of(bits: u64) -> Seq<Capability> {
    Capability::catalogue().filter(is_set_in(bits))
}

impl Capability {
    /// The bit that stands for this capability.
    pub open spec fn spec_bits(self) -> u64 {
        match self {
            Capability::ASYMMETRIC_DECRYPT_ECDH => 0x800,
            Capability::ASYMMETRIC_DECRYPT_OAEP => 0x400,
            Capability::ASYMMETRIC_DECRYPT_PKCS => 0x200,
            Capability::ASYMMETRIC_GEN => 0x10,
            Capability::ASYMMETRIC_SIGN_ECDSA => 0x80,
            Capability::ASYMMETRIC_SIGN_EDDSA => 0x100,
            Capability::ASYMMETRIC_SIGN_PKCS => 0x20,
            Capability::ASYMMETRIC_SIGN_PSS => 0x40,
            Capability::ATTEST => 0x4_0000_0000,
            Capability::AUDIT => 0x100_0000,
            Capability::DELETE_ASYMMETRIC => 0x200_0000_0000,
            Capability::DELETE_AUTHKEY => 0x100_0000_0000,
            Capability::DELETE_HMACKEY => 0x800_0000_0000,
            Capability::DELETE_OPAQUE => 0x80_0000_0000,
            Capability::DELETE_OTP_AEAD_KEY => 0x2000_0000_0000,
            Capability::DELETE_TEMPLATE => 0x1000_0000_0000,
            Capability::DELETE_WRAPKEY => 0x400_0000_0000,
            Capability::EXPORT_UNDER_WRAP => 0x1_0000,
            Capability::EXPORT_WRAPPED => 0x1000,
            Capability::GENERATE_OTP_AEAD_KEY => 0x10_0000_0000,
            Capability::GENERATE_WRAPKEY => 0x8000,
            Capability::GET_OPAQUE => 0x1,
            Capability::GET_OPTION => 0x4_0000,
            Capability::GET_RANDOMNESS => 0x8_0000,
            Capability::GET_TEMPLATE => 0x400_0000,
            Capability::HMACKEY_GENERATE => 0x20_0000,
            Capability::HMAC_DATA => 0x40_0000,
            Capability::HMAC_VERIFY => 0x80_0000,
            Capability::IMPORT_WRAPPED => 0x2000,
            Capability::OTP_AEAD_CREATE => 0x4000_0000,
            Capability::OTP_AEAD_RANDOM => 0x8000_0000,
            Capability::OTP_AEAD_REWRAP_FROM => 0x1_0000_0000,
            Capability::OTP_AEAD_REWRAP_TO => 0x2_0000_0000,
            Capability::OTP_DECRYPT => 0x2000_0000,
            Capability::PUT_ASYMMETRIC => 0x8,
            Capability::PUT_AUTHKEY => 0x4,
            Capability::PUT_HMACKEY => 0x10_0000,
            Capability::PUT_OPAQUE => 0x2,
            Capability::PUT_OPTION => 0x2_0000,
            Capability::PUT_OTP_AEAD_KEY => 0x8_0000_0000,
            Capability::PUT_TEMPLATE => 0x800_0000,
            Capability::PUT_WRAPKEY => 0x4000,
            Capability::RESET => 0x1000_0000,
            Capability::SSH_CERTIFY => 0x200_0000,
            Capability::UNWRAP_DATA => 0x40_0000_0000,
            Capability::WRAP_DATA => 0x20_0000_0000,
        }
    }

    /// The bit that stands for this capability.
    pub fn bits(self) -> (bits: u64)
        ensures
            bits == self.spec_bits(),
    {
        match self {
            Capability::ASYMMETRIC_DECRYPT_ECDH => 0x800,
            Capability::ASYMMETRIC_DECRYPT_OAEP => 0x400,
            Capability::ASYMMETRIC_DECRYPT_PKCS => 0x200,
            Capability::ASYMMETRIC_GEN => 0x10,
            Capability::ASYMMETRIC_SIGN_ECDSA => 0x80,
            Capability::ASYMMETRIC_SIGN_EDDSA => 0x100,
            Capability::ASYMMETRIC_SIGN_PKCS => 0x20,
            Capability::ASYMMETRIC_SIGN_PSS => 0x40,
            Capability::ATTEST => 0x4_0000_0000,
            Capability::AUDIT => 0x100_0000,
            Capability::DELETE_ASYMMETRIC => 0x200_0000_0000,
            Capability::DELETE_AUTHKEY => 0x100_0000_0000,
            Capability::DELETE_HMACKEY => 0x800_0000_0000,
            Capability::DELETE_OPAQUE => 0x80_0000_0000,
            Capability::DELETE_OTP_AEAD_KEY => 0x2000_0000_0000,
            Capability::DELETE_TEMPLATE => 0x1000_0000_0000,
            Capability::DELETE_WRAPKEY => 0x400_0000_0000,
            Capability::EXPORT_UNDER_WRAP => 0x1_0000,
            Capability::EXPORT_WRAPPED => 0x1000,
            Capability::GENERATE_OTP_AEAD_KEY => 0x10_0000_0000,
            Capability::GENERATE_WRAPKEY => 0x8000,
            Capability::GET_OPAQUE => 0x1,
            Capability::GET_OPTION => 0x4_0000,
            Capability::GET_RANDOMNESS => 0x8_0000,
            Capability::GET_TEMPLATE => 0x400_0000,
            Capability::HMACKEY_GENERATE => 0x20_0000,
            Capability::HMAC_DATA => 0x40_0000,
            Capability::HMAC_VERIFY => 0x80_0000,
            Capability::IMPORT_WRAPPED => 0x2000,
            Capability::OTP_AEAD_CREATE => 0x4000_0000,
            Capability::OTP_AEAD_RANDOM => 0x8000_0000,
            Capability::OTP_AEAD_REWRAP_FROM => 0x1_0000_0000,
            Capability::OTP_AEAD_REWRAP_TO => 0x2_0000_0000,
            Capability::OTP_DECRYPT => 0x2000_0000,
            Capability::PUT_ASYMMETRIC => 0x8,
            Capability::PUT_AUTHKEY => 0x4,
            Capability::PUT_HMACKEY => 0x10_0000,
            Capability::PUT_OPAQUE => 0x2,
            Capability::PUT_OPTION => 0x2_0000,
            Capability::PUT_OTP_AEAD_KEY => 0x8_0000_0000,
            Capability::PUT_TEMPLATE => 0x800_0000,
            Capability::PUT_WRAPKEY => 0x4000,
            Capability::RESET => 0x1000_0000,
            Capability::SSH_CERTIFY => 0x200_0000,
            Capability::UNWRAP_DATA => 0x40_0000_0000,
            Capability::WRAP_DATA => 0x20_0000_0000,
        }
    }

    /// The name under which this capability is reported.
    pub open spec fn spec_name(self) -> Seq<char> {
        match self {
            Capability::ASYMMETRIC_DECRYPT_ECDH => "asymmetric_decrypt_ecdh"@,
            Capability::ASYMMETRIC_DECRYPT_OAEP => "asymmetric_decrypt_oaep"@,
            Capability::ASYMMETRIC_DECRYPT_PKCS => "asymmetric_decrypt_pkcs"@,
            Capability::ASYMMETRIC_GEN => "asymmetric_gen"@,
            Capability::ASYMMETRIC_SIGN_ECDSA => "asymmetric_sign_ecdsa"@,
            Capability::ASYMMETRIC_SIGN_EDDSA => "asymmetric_sign_eddsa"@,
            Capability::ASYMMETRIC_SIGN_PKCS => "asymmetric_sign_pkcs"@,
            Capability::ASYMMETRIC_SIGN_PSS => "asymmetric_sign_pss"@,
            Capability::ATTEST => "attest"@,
            Capability::AUDIT => "audit"@,
            Capability::DELETE_ASYMMETRIC => "delete_asymmetric"@,
            Capability::DELETE_AUTHKEY => "delete_authkey"@,
            Capability::DELETE_HMACKEY => "delete_hmac_key"@,
            Capability::DELETE_OPAQUE => "delete_opaque"@,
            Capability::DELETE_OTP_AEAD_KEY => "delete_otp_aead_key"@,
            Capability::DELETE_TEMPLATE => "delete_template"@,
            Capability::DELETE_WRAPKEY => "delete_wrap_key"@,
            Capability::EXPORT_UNDER_WRAP => "export_under_wrap"@,
            Capability::EXPORT_WRAPPED => "export_wrapped"@,
            Capability::GENERATE_OTP_AEAD_KEY => "generate_otp_aead_key"@,
            Capability::GENERATE_WRAPKEY => "generate_wrapkey"@,
            Capability::GET_OPAQUE => "get_opaque"@,
            Capability::GET_OPTION => "get_option"@,
            Capability::GET_RANDOMNESS => "get_randomness"@,
            Capability::GET_TEMPLATE => "get_template"@,
            Capability::HMACKEY_GENERATE => "hmackey_generate"@,
            Capability::HMAC_DATA => "hmac_data"@,
            Capability::HMAC_VERIFY => "hmac_verify"@,
            Capability::IMPORT_WRAPPED => "import_wrapped"@,
            Capability::OTP_AEAD_CREATE => "otp_aead_create"@,
            Capability::OTP_AEAD_RANDOM => "otp_aead_random"@,
            Capability::OTP_AEAD_REWRAP_FROM => "otp_aead_rewrap_from"@,
            Capability::OTP_AEAD_REWRAP_TO => "otp_aead_rewrap_to"@,
            Capability::OTP_DECRYPT => "otp_decrypt"@,
            Capability::PUT_ASYMMETRIC => "put_asymmetric"@,
            Capability::PUT_AUTHKEY => "put_authkey"@,
            Capability::PUT_HMACKEY => "put_hmackey"@,
            Capability::PUT_OPAQUE => "put_opaque"@,
            Capability::PUT_OPTION => "put_option"@,
            Capability::PUT_OTP_AEAD_KEY => "put_otp_aead_key"@,
            Capability::PUT_TEMPLATE => "put_template"@,
            Capability::PUT_WRAPKEY => "put_wrapkey"@,
            Capability::RESET => "reset"@,
            Capability::SSH_CERTIFY => "ssh_certify"@,
            Capability::UNWRAP_DATA => "unwrap_data"@,
            Capability::WRAP_DATA => "wrap_data"@,
        }
    }

    /// The name under which this capability is reported.
    pub fn name(self) -> (name: &'static str)
        ensures
            name@ == self.spec_name(),
    {
        match self {
            Capability::ASYMMETRIC_DECRYPT_ECDH => "asymmetric_decrypt_ecdh",
            Capability::ASYMMETRIC_DECRYPT_OAEP => "asymmetric_decrypt_oaep",
            Capability::ASYMMETRIC_DECRYPT_PKCS => "asymmetric_decrypt_pkcs",
            Capability::ASYMMETRIC_GEN => "asymmetric_gen",
            Capability::ASYMMETRIC_SIGN_ECDSA => "asymmetric_sign_ecdsa",
            Capability::ASYMMETRIC_SIGN_EDDSA => "asymmetric_sign_eddsa",
            Capability::ASYMMETRIC_SIGN_PKCS => "asymmetric_sign_pkcs",
            Capability::ASYMMETRIC_SIGN_PSS => "asymmetric_sign_pss",
            Capability::ATTEST => "attest",
            Capability::AUDIT => "audit",
            Capability::DELETE_ASYMMETRIC => "delete_asymmetric",
            Capability::DELETE_AUTHKEY => "delete_authkey",
            Capability::DELETE_HMACKEY => "delete_hmac_key",
            Capability::DELETE_OPAQUE => "delete_opaque",
            Capability::DELETE_OTP_AEAD_KEY => "delete_otp_aead_key",
            Capability::DELETE_TEMPLATE => "delete_template",
            Capability::DELETE_WRAPKEY => "delete_wrap_key",
            Capability::EXPORT_UNDER_WRAP => "export_under_wrap",
            Capability::EXPORT_WRAPPED => "export_wrapped",
            Capability::GENERATE_OTP_AEAD_KEY => "generate_otp_aead_key",
            Capability::GENERATE_WRAPKEY => "generate_wrapkey",
            Capability::GET_OPAQUE => "get_opaque",
            Capability::GET_OPTION => "get_option",
            Capability::GET_RANDOMNESS => "get_randomness",
            Capability::GET_TEMPLATE => "get_template",
            Capability::HMACKEY_GENERATE => "hmackey_generate",
            Capability::HMAC_DATA => "hmac_data",
            Capability::HMAC_VERIFY => "hmac_verify",
            Capability::IMPORT_WRAPPED => "import_wrapped",
            Capability::OTP_AEAD_CREATE => "otp_aead_create",
            Capability::OTP_AEAD_RANDOM => "otp_aead_random",
            Capability::OTP_AEAD_REWRAP_FROM => "otp_aead_rewrap_from",
            Capability::OTP_AEAD_REWRAP_TO => "otp_aead_rewrap_to",
            Capability::OTP_DECRYPT => "otp_decrypt",
            Capability::PUT_ASYMMETRIC => "put_asymmetric",
            Capability::PUT_AUTHKEY => "put_authkey",
            Capability::PUT_HMACKEY => "put_hmackey",
            Capability::PUT_OPAQUE => "put_opaque",
            Capability::PUT_OPTION => "put_option",
            Capability::PUT_OTP_AEAD_KEY => "put_otp_aead_key",
            Capability::PUT_TEMPLATE => "put_template",
            Capability::PUT_WRAPKEY => "put_wrapkey",
            Capability::RESET => "reset",
            Capability::SSH_CERTIFY => "ssh_certify",
            Capability::UNWRAP_DATA => "unwrap_data",
            Capability::WRAP_DATA => "wrap_data",
        }
    }

    /// The place of this capability in the catalogue.
    pub open spec fn spec_position(self) -> int {
        match self {
            Capability::ASYMMETRIC_DECRYPT_ECDH => 0,
            Capability::ASYMMETRIC_DECRYPT_OAEP => 1,
            Capability::ASYMMETRIC_DECRYPT_PKCS => 2,
            Capability::ASYMMETRIC_GEN => 3,
            Capability::ASYMMETRIC_SIGN_ECDSA => 4,
            Capability::ASYMMETRIC_SIGN_EDDSA => 5,
            Capability::ASYMMETRIC_SIGN_PKCS => 6,
            Capability::ASYMMETRIC_SIGN_PSS => 7,
            Capability::ATTEST => 8,
            Capability::AUDIT => 9,
            Capability::DELETE_ASYMMETRIC => 10,
            Capability::DELETE_AUTHKEY => 11,
            Capability::DELETE_HMACKEY => 12,
            Capability::DELETE_OPAQUE => 13,
            Capability::DELETE_OTP_AEAD_KEY => 14,
            Capability::DELETE_TEMPLATE => 15,
            Capability::DELETE_WRAPKEY => 16,
            Capability::EXPORT_UNDER_WRAP => 17,
            Capability::EXPORT_WRAPPED => 18,
            Capability::GENERATE_OTP_AEAD_KEY => 19,
            Capability::GENERATE_WRAPKEY => 20,
            Capability::GET_OPAQUE => 21,
            Capability::GET_OPTION => 22,
            Capability::GET_RANDOMNESS => 23,
            Capability::GET_TEMPLATE => 24,
            Capability::HMACKEY_GENERATE => 25,
            Capability::HMAC_DATA => 26,
            Capability::HMAC_VERIFY => 27,
            Capability::IMPORT_WRAPPED => 28,
            Capability::OTP_AEAD_CREATE => 29,
            Capability::OTP_AEAD_RANDOM => 30,
            Capability::OTP_AEAD_REWRAP_FROM => 31,
            Capability::OTP_AEAD_REWRAP_TO => 32,
            Capability::OTP_DECRYPT => 33,
            Capability::PUT_ASYMMETRIC => 34,
            Capability::PUT_AUTHKEY => 35,
            Capability::PUT_HMACKEY => 36,
            Capability::PUT_OPAQUE => 37,
            Capability::PUT_OPTION => 38,
            Capability::PUT_OTP_AEAD_KEY => 39,
            Capability::PUT_TEMPLATE => 40,
            Capability::PUT_WRAPKEY => 41,
            Capability::RESET => 42,
            Capability::SSH_CERTIFY => 43,
            Capability::UNWRAP_DATA => 44,
            Capability::WRAP_DATA => 45,
        }
    }

    /// The catalogue: every named capability once, in declaration order.
    pub open spec fn catalogue() -> Seq<Capability> {
        seq![
            Capability::ASYMMETRIC_DECRYPT_ECDH,
            Capability::ASYMMETRIC_DECRYPT_OAEP,
            Capability::ASYMMETRIC_DECRYPT_PKCS,
            Capability::ASYMMETRIC_GEN,
            Capability::ASYMMETRIC_SIGN_ECDSA,
            Capability::ASYMMETRIC_SIGN_EDDSA,
            Capability::ASYMMETRIC_SIGN_PKCS,
            Capability::ASYMMETRIC_SIGN_PSS,
            Capability::ATTEST,
            Capability::AUDIT,
            Capability::DELETE_ASYMMETRIC,
            Capability::DELETE_AUTHKEY,
            Capability::DELETE_HMACKEY,
            Capability::DELETE_OPAQUE,
            Capability::DELETE_OTP_AEAD_KEY,
            Capability::DELETE_TEMPLATE,
            Capability::DELETE_WRAPKEY,
            Capability::EXPORT_UNDER_WRAP,
            Capability::EXPORT_WRAPPED,
            Capability::GENERATE_OTP_AEAD_KEY,
            Capability::GENERATE_WRAPKEY,
            Capability::GET_OPAQUE,
            Capability::GET_OPTION,
            Capability::GET_RANDOMNESS,
            Capability::GET_TEMPLATE,
            Capability::HMACKEY_GENERATE,
            Capability::HMAC_DATA,
            Capability::HMAC_VERIFY,
            Capability::IMPORT_WRAPPED,
            Capability::OTP_AEAD_CREATE,
            Capability::OTP_AEAD_RANDOM,
            Capability::OTP_AEAD_REWRAP_FROM,
            Capability::OTP_AEAD_REWRAP_TO,
            Capability::OTP_DECRYPT,
            Capability::PUT_ASYMMETRIC,
            Capability::PUT_AUTHKEY,
            Capability::PUT_HMACKEY,
            Capability::PUT_OPAQUE,
            Capability::PUT_OPTION,
            Capability::PUT_OTP_AEAD_KEY,
            Capability::PUT_TEMPLATE,
            Capability::PUT_WRAPKEY,
            Capability::RESET,
            Capability::SSH_CERTIFY,
            Capability::UNWRAP_DATA,
            Capability::WRAP_DATA,
        ]
    }

    /// Set of all capabilities, in catalogue order.
    pub fn iter() -> (all: Vec<Capability>)
        ensures
            all@ == Capability::catalogue(),
    {
        let all = vec![
            Capability::ASYMMETRIC_DECRYPT_ECDH,
            Capability::ASYMMETRIC_DECRYPT_OAEP,
            Capability::ASYMMETRIC_DECRYPT_PKCS,
            Capability::ASYMMETRIC_GEN,
            Capability::ASYMMETRIC_SIGN_ECDSA,
            Capability::ASYMMETRIC_SIGN_EDDSA,
            Capability::ASYMMETRIC_SIGN_PKCS,
            Capability::ASYMMETRIC_SIGN_PSS,
            Capability::ATTEST,
            Capability::AUDIT,
            Capability::DELETE_ASYMMETRIC,
            Capability::DELETE_AUTHKEY,
            Capability::DELETE_HMACKEY,
            Capability::DELETE_OPAQUE,
            Capability::DELETE_OTP_AEAD_KEY,
            Capability::DELETE_TEMPLATE,
            Capability::DELETE_WRAPKEY,
            Capability::EXPORT_UNDER_WRAP,
            Capability::EXPORT_WRAPPED,
            Capability::GENERATE_OTP_AEAD_KEY,
            Capability::GENERATE_WRAPKEY,
            Capability::GET_OPAQUE,
            Capability::GET_OPTION,
            Capability::GET_RANDOMNESS,
            Capability::GET_TEMPLATE,
            Capability::HMACKEY_GENERATE,
            Capability::HMAC_DATA,
            Capability::HMAC_VERIFY,
            Capability::IMPORT_WRAPPED,
            Capability::OTP_AEAD_CREATE,
            Capability::OTP_AEAD_RANDOM,
            Capability::OTP_AEAD_REWRAP_FROM,
            Capability::OTP_AEAD_REWRAP_TO,
            Capability::OTP_DECRYPT,
            Capability::PUT_ASYMMETRIC,
            Capability::PUT_AUTHKEY,
            Capability::PUT_HMACKEY,
            Capability::PUT_OPAQUE,
            Capability::PUT_OPTION,
            Capability::PUT_OTP_AEAD_KEY,
            Capability::PUT_TEMPLATE,
            Capability::PUT_WRAPKEY,
            Capability::RESET,
            Capability::SSH_CERTIFY,
            Capability::UNWRAP_DATA,
            Capability::WRAP_DATA,
        ];
        assert(all@ =~= Capability::catalogue());
        all
    }

    /// The bitwise union of the bits of `capabilities`.
    pub open spec fn union_bits(capabilities: Seq<Capability>) -> u64
        decreases capabilities.len(),
    {
        if capabilities.len() == 0 {
            0
        } else {
            Capability::union_bits(capabilities.drop_last()) | capabilities.last().spec_bits()
        }
    }

    /// What `parse` makes of `bytes`: the field as a number and its named
    /// members, or the length error.
    pub open spec fn spec_parse(bytes: Seq<u8>) -> Result<(u64, Seq<Capability>), DecodeError> {
        if bytes.len() != CAPABILITY_BYTES {
            Err(DecodeError::WrongLength { expected: CAPABILITY_BYTES, actual: bytes.len() as usize })
        } else {
            Ok((u64_from_be_bytes(bytes), members_of(u64_from_be_bytes(bytes))))
        }
    }

    /// Parse capabilities from a byte serialization.
    ///
    /// The input must be exactly eight bytes, read as a big-endian bitfield.
    /// The result is the set as it was received, unknown bits included,
    /// together with the named capabilities it holds, in catalogue order.
    pub fn parse(bytes: &[u8]) -> (parsed: Result<(CapabilitySet, Vec<Capability>), DecodeError>)
        ensures
            match parsed {
                Ok((set, members)) => Capability::spec_parse(bytes@) == Ok::<
                    (u64, Seq<Capability>),
                    DecodeError,
                >((set@, members@)),
                Err(error) => Capability::spec_parse(bytes@) == Err::<
                    (u64, Seq<Capability>),
                    DecodeError,
                >(error),
            },
    {
        if bytes.len() != CAPABILITY_BYTES {
            return Err(
                DecodeError::WrongLength { expected: CAPABILITY_BYTES, actual: bytes.len() },
            );
        }
        let set = CapabilitySet::from_bits(read_u64_be(bytes));
        let members = set.members();
        Ok((set, members))
    }

    /// Convert an array of Capability objects to a 64-bit integer bitfield.
    pub fn bitfield(capabilities: &[Capability]) -> (bits: u64)
        ensures
            bits == Capability::union_bits(capabilities@),
    {
        let mut bits: u64 = 0;
        let mut i: usize = 0;
        while i < capabilities.len()
            invariant
                i <= capabilities.len(),
                bits == Capability::union_bits(capabilities@.take(i as int)),
            decreases capabilities.len() - i,
        {
            proof {
                let next = capabilities@.take(i + 1);
                assert(next.drop_last() =~= capabilities@.take(i as int));
                assert(next.last() == capabilities@[i as int]);
            }
            bits = bits | capabilities[i].bits();
            i += 1;
        }
        assert(capabilities@.take(i as int) =~= capabilities@);
        bits
    }
}

/// A capability field: a 64-bit value in which each named capability owns
/// one bit. Bits without a name are kept as they are.
#[derive(Clone, Copy, Debug, PartialEq, Eq, Hash, Structural)]
pub struct CapabilitySet {
    bits: u64,
}

impl View for CapabilitySet {
    type V = u64;

    closed spec fn view(&self) -> u64 {
        self.bits
    }
}

impl CapabilitySet {
    /// Wraps a 64-bit value. Every value is accepted.
    pub fn from_bits(bits: u64) -> (set: CapabilitySet)
        ensures
            set@ == bits,
    {
        CapabilitySet { bits }
    }

    /// The set that holds exactly the given capabilities.
    pub fn from_capabilities(capabilities: &[Capability]) -> (set: CapabilitySet)
        ensures
            set@ == Capability::union_bits(capabilities@),
    {
        CapabilitySet { bits: Capability::bitfield(capabilities) }
    }

    /// The field as a number.
    pub fn to_bitfield(&self) -> (bits: u64)
        ensures
            bits == self@,
    {
        self.bits
    }

    /// Whether the bit of `capability` is set.
    pub fn contains(&self, capability: Capability) -> (found: bool)
        ensures
            found == is_set_in(self@)(capability),
    {
        self.bits & capability.bits() != 0
    }

    /// The union of two sets.
    pub fn union(&self, other: &CapabilitySet) -> (both: CapabilitySet)
        ensures
            both@ == self@ | other@,
    {
        CapabilitySet { bits: self.bits | other.bits }
    }

    /// The named capabilities in this set, in catalogue order.
    pub fn members(&self) -> (members: Vec<Capability>)
        ensures
            members@ == members_of(self@),
    {
        let all = Capability::iter();
        let mut members: Vec<Capability> = Vec::new();
        let mut i: usize = 0;
        assert(all@.take(0) =~= Seq::<Capability>::empty());
        proof {
            reveal(Seq::filter);
        }
        while i < all.len()
            invariant
                i <= all.len(),
                all@ == Capability::catalogue(),
                members@ == all@.take(i as int).filter(is_set_in(self@)),
            decreases all.len() - i,
        {
            let capability = all[i];
            proof {
                all@.lemma_take_succ_push(i as int);
                all@.take(i as int).lemma_filter_push(capability, is_set_in(self@));
            }
            if self.bits & capability.bits() != 0 {
                members.push(capability);
            }
            i += 1;
        }
        assert(all@.take(i as int) =~= all@);
        members
    }

    /// The eight bytes that encode this set, most significant first.
    pub fn to_bytes(&self) -> (bytes: Vec<u8>)
        ensures
            bytes@ == u64_to_be_bytes(self@),
    {
        let mut bytes: Vec<u8> = Vec::with_capacity(CAPABILITY_BYTES);
        write_u64_be(&mut bytes, self.bits);
        assert(bytes@ =~= u64_to_be_bytes(self@));
        bytes
    }
}

/// Two sets with the same bits are the same set.
pub proof fn lemma_set_determined_by_bits(a: CapabilitySet, b: CapabilitySet)
    requires
        a@ == b@,
    ensures
        a == b,
{
}

proof fn lemma_named_constants()
    by (bit_vector)
    ensures
        is_single_bit(0x800),
        is_single_bit(0x400),
        is_single_bit(0x200),
        is_single_bit(0x10),
        is_single_bit(0x80),
        is_single_bit(0x100),
        is_single_bit(0x20),
        is_single_bit(0x40),
        is_single_bit(0x4_0000_0000),
        is_single_bit(0x100_0000),
        is_single_bit(0x200_0000_0000),
        is_single_bit(0x100_0000_0000),
        is_single_bit(0x800_0000_0000),
        is_single_bit(0x80_0000_0000),
        is_single_bit(0x2000_0000_0000),
        is_single_bit(0x1000_0000_0000),
        is_single_bit(0x400_0000_0000),
        is_single_bit(0x1_0000),
        is_single_bit(0x1000),
        is_single_bit(0x10_0000_0000),
        is_single_bit(0x8000),
        is_single_bit(0x1),
        is_single_bit(0x4_0000),
        is_single_bit(0x8_0000),
        is_single_bit(0x400_0000),
        is_single_bit(0x20_0000),
        is_single_bit(0x40_0000),
        is_single_bit(0x80_0000),
        is_single_bit(0x2000),
        is_single_bit(0x4000_0000),
        is_single_bit(0x8000_0000),
        is_single_bit(0x1_0000_0000),
        is_single_bit(0x2_0000_0000),
        is_single_bit(0x2000_0000),
        is_single_bit(0x8),
        is_single_bit(0x4),
        is_single_bit(0x10_0000),
        is_single_bit(0x2),
        is_single_bit(0x2_0000),
        is_single_bit(0x8_0000_0000),
        is_single_bit(0x800_0000),
        is_single_bit(0x4000),
        is_single_bit(0x1000_0000),
        is_single_bit(0x200_0000),
        is_single_bit(0x40_0000_0000),
        is_single_bit(0x20_0000_0000),
{
}

/// Every named capability is a single bit.
pub proof fn lemma_named_bit_is_single(capability: Capability)
    ensures
        is_single_bit(capability.spec_bits()),
{
    lemma_named_constants();
}

/// Every named capability stands in the catalogue, at its position.
pub proof fn lemma_catalogue_complete(capability: Capability)
    ensures
        0 <= capability.spec_position() < Capability::catalogue().len(),
        Capability::catalogue()[capability.spec_position()] == capability,
        Capability::catalogue().contains(capability),
{
    let catalogue = Capability::catalogue();
    match capability {
        Capability::ASYMMETRIC_DECRYPT_ECDH => assert(catalogue[0] == capability),
        Capability::ASYMMETRIC_DECRYPT_OAEP => assert(catalogue[1] == capability),
        Capability::ASYMMETRIC_DECRYPT_PKCS => assert(catalogue[2] == capability),
        Capability::ASYMMETRIC_GEN => assert(catalogue[3] == capability),
        Capability::ASYMMETRIC_SIGN_ECDSA => assert(catalogue[4] == capability),
        Capability::ASYMMETRIC_SIGN_EDDSA => assert(catalogue[5] == capability),
        Capability::ASYMMETRIC_SIGN_PKCS => assert(catalogue[6] == capability),
        Capability::ASYMMETRIC_SIGN_PSS => assert(catalogue[7] == capability),
        Capability::ATTEST => assert(catalogue[8] == capability),
        Capability::AUDIT => assert(catalogue[9] == capability),
        Capability::DELETE_ASYMMETRIC => assert(catalogue[10] == capability),
        Capability::DELETE_AUTHKEY => assert(catalogue[11] == capability),
        Capability::DELETE_HMACKEY => assert(catalogue[12] == capability),
        Capability::DELETE_OPAQUE => assert(catalogue[13] == capability),
        Capability::DELETE_OTP_AEAD_KEY => assert(catalogue[14] == capability),
        Capability::DELETE_TEMPLATE => assert(catalogue[15] == capability),
        Capability::DELETE_WRAPKEY => assert(catalogue[16] == capability),
        Capability::EXPORT_UNDER_WRAP => assert(catalogue[17] == capability),
        Capability::EXPORT_WRAPPED => assert(catalogue[18] == capability),
        Capability::GENERATE_OTP_AEAD_KEY => assert(catalogue[19] == capability),
        Capability::GENERATE_WRAPKEY => assert(catalogue[20] == capability),
        Capability::GET_OPAQUE => assert(catalogue[21] == capability),
        Capability::GET_OPTION => assert(catalogue[22] == capability),
        Capability::GET_RANDOMNESS => assert(catalogue[23] == capability),
        Capability::GET_TEMPLATE => assert(catalogue[24] == capability),
        Capability::HMACKEY_GENERATE => assert(catalogue[25] == capability),
        Capability::HMAC_DATA => assert(catalogue[26] == capability),
        Capability::HMAC_VERIFY => assert(catalogue[27] == capability),
        Capability::IMPORT_WRAPPED => assert(catalogue[28] == capability),
        Capability::OTP_AEAD_CREATE => assert(catalogue[29] == capability),
        Capability::OTP_AEAD_RANDOM => assert(catalogue[30] == capability),
        Capability::OTP_AEAD_REWRAP_FROM => assert(catalogue[31] == capability),
        Capability::OTP_AEAD_REWRAP_TO => assert(catalogue[32] == capability),
        Capability::OTP_DECRYPT => assert(catalogue[33] == capability),
        Capability::PUT_ASYMMETRIC => assert(catalogue[34] == capability),
        Capability::PUT_AUTHKEY => assert(catalogue[35] == capability),
        Capability::PUT_HMACKEY => assert(catalogue[36] == capability),
        Capability::PUT_OPAQUE => assert(catalogue[37] == capability),
        Capability::PUT_OPTION => assert(catalogue[38] == capability),
        Capability::PUT_OTP_AEAD_KEY => assert(catalogue[39] == capability),
        Capability::PUT_TEMPLATE => assert(catalogue[40] == capability),
        Capability::PUT_WRAPKEY => assert(catalogue[41] == capability),
        Capability::RESET => assert(catalogue[42] == capability),
        Capability::SSH_CERTIFY => assert(catalogue[43] == capability),
        Capability::UNWRAP_DATA => assert(catalogue[44] == capability),
        Capability::WRAP_DATA => assert(catalogue[45] == capability),
    }
}

/// No capability stands in the catalogue twice.
pub proof fn lemma_catalogue_distinct()
    ensures
        Capability::catalogue().len() == 46,
        Capability::catalogue().no_duplicates(),
        forall|i: int|
            0 <= i < Capability::catalogue().len() ==> (#[trigger] Capability::catalogue()[i]).spec_position()
                == i,
{
}

proof fn lemma_union_constants()
    by (bit_vector)
    ensures
        0x0u64 | 0x800u64 == 0x800u64,
        0x800u64 | 0x400u64 == 0xc00u64,
        0xc00u64 | 0x200u64 == 0xe00u64,
        0xe00u64 | 0x10u64 == 0xe10u64,
        0xe10u64 | 0x80u64 == 0xe90u64,
        0xe90u64 | 0x100u64 == 0xf90u64,
        0xf90u64 | 0x20u64 == 0xfb0u64,
        0xfb0u64 | 0x40u64 == 0xff0u64,
        0xff0u64 | 0x4_0000_0000u64 == 0x4_0000_0ff0u64,
        0x4_0000_0ff0u64 | 0x100_0000u64 == 0x4_0100_0ff0u64,
        0x4_0100_0ff0u64 | 0x200_0000_0000u64 == 0x204_0100_0ff0u64,
        0x204_0100_0ff0u64 | 0x100_0000_0000u64 == 0x304_0100_0ff0u64,
        0x304_0100_0ff0u64 | 0x800_0000_0000u64 == 0xb04_0100_0ff0u64,
        0xb04_0100_0ff0u64 | 0x80_0000_0000u64 == 0xb84_0100_0ff0u64,
        0xb84_0100_0ff0u64 | 0x2000_0000_0000u64 == 0x2b84_0100_0ff0u64,
        0x2b84_0100_0ff0u64 | 0x1000_0000_0000u64 == 0x3b84_0100_0ff0u64,
        0x3b84_0100_0ff0u64 | 0x400_0000_0000u64 == 0x3f84_0100_0ff0u64,
        0x3f84_0100_0ff0u64 | 0x1_0000u64 == 0x3f84_0101_0ff0u64,
        0x3f84_0101_0ff0u64 | 0x1000u64 == 0x3f84_0101_1ff0u64,
        0x3f84_0101_1ff0u64 | 0x10_0000_0000u64 == 0x3f94_0101_1ff0u64,
        0x3f94_0101_1ff0u64 | 0x8000u64 == 0x3f94_0101_9ff0u64,
        0x3f94_0101_9ff0u64 | 0x1u64 == 0x3f94_0101_9ff1u64,
        0x3f94_0101_9ff1u64 | 0x4_0000u64 == 0x3f94_0105_9ff1u64,
        0x3f94_0105_9ff1u64 | 0x8_0000u64 == 0x3f94_010d_9ff1u64,
        0x3f94_010d_9ff1u64 | 0x400_0000u64 == 0x3f94_050d_9ff1u64,
        0x3f94_050d_9ff1u64 | 0x20_0000u64 == 0x3f94_052d_9ff1u64,
        0x3f94_052d_9ff1u64 | 0x40_0000u64 == 0x3f94_056d_9ff1u64,
        0x3f94_056d_9ff1u64 | 0x80_0000u64 == 0x3f94_05ed_9ff1u64,
        0x3f94_05ed_9ff1u64 | 0x2000u64 == 0x3f94_05ed_bff1u64,
        0x3f94_05ed_bff1u64 | 0x4000_0000u64 == 0x3f94_45ed_bff1u64,
        0x3f94_45ed_bff1u64 | 0x8000_0000u64 == 0x3f94_c5ed_bff1u64,
        0x3f94_c5ed_bff1u64 | 0x1_0000_0000u64 == 0x3f95_c5ed_bff1u64,
        0x3f95_c5ed_bff1u64 | 0x2_0000_0000u64 == 0x3f97_c5ed_bff1u64,
        0x3f97_c5ed_bff1u64 | 0x2000_0000u64 == 0x3f97_e5ed_bff1u64,
        0x3f97_e5ed_bff1u64 | 0x8u64 == 0x3f97_e5ed_bff9u64,
        0x3f97_e5ed_bff9u64 | 0x4u64 == 0x3f97_e5ed_bffdu64,
        0x3f97_e5ed_bffdu64 | 0x10_0000u64 == 0x3f97_e5fd_bffdu64,
        0x3f97_e5fd_bffdu64 | 0x2u64 == 0x3f97_e5fd_bfffu64,
        0x3f97_e5fd_bfffu64 | 0x2_0000u64 == 0x3f97_e5ff_bfffu64,
        0x3f97_e5ff_bfffu64 | 0x8_0000_0000u64 == 0x3f9f_e5ff_bfffu64,
        0x3f9f_e5ff_bfffu64 | 0x800_0000u64 == 0x3f9f_edff_bfffu64,
        0x3f9f_edff_bfffu64 | 0x4000u64 == 0x3f9f_edff_ffffu64,
        0x3f9f_edff_ffffu64 | 0x1000_0000u64 == 0x3f9f_fdff_ffffu64,
        0x3f9f_fdff_ffffu64 | 0x200_0000u64 == 0x3f9f_ffff_ffffu64,
        0x3f9f_ffff_ffffu64 | 0x40_0000_0000u64 == 0x3fdf_ffff_ffffu64,
        0x3fdf_ffff_ffffu64 | 0x20_0000_0000u64 == 0x3fff_ffff_ffffu64,
{
}

proof fn lemma_union_step(i: int, before: u64, after: u64)
    requires
        0 <= i < Capability::catalogue().len(),
        Capability::union_bits(Capability::catalogue().take(i)) == before,
        before | Capability::catalogue()[i].spec_bits() == after,
    ensures
        Capability::union_bits(Capability::catalogue().take(i + 1)) == after,
{
    let next = Capability::catalogue().take(i + 1);
    assert(next.drop_last() =~= Capability::catalogue().take(i));
    assert(next.last() == Capability::catalogue()[i]);
}


proof fn lemma_union_through_8()
    requires
        Capability::union_bits(Capability::catalogue().take(0)) == 0x0,
    ensures
        Capability::union_bits(Capability::catalogue().take(8)) == 0xff0,
{
    lemma_union_constants();
    lemma_union_step(0, 0x0, 0x800);
    lemma_union_step(1, 0x800, 0xc00);
    lemma_union_step(2, 0xc00, 0xe00);
    lemma_union_step(3, 0xe00, 0xe10);
    lemma_union_step(4, 0xe10, 0xe90);
    lemma_union_step(5, 0xe90, 0xf90);
    lemma_union_step(6, 0xf90, 0xfb0);
    lemma_union_step(7, 0xfb0, 0xff0);
}

proof fn lemma_union_through_16()
    requires
        Capability::union_bits(Capability::catalogue().take(8)) == 0xff0,
    ensures
        Capability::union_bits(Capability::catalogue().take(16)) == 0x3b84_0100_0ff0,
{
    lemma_union_constants();
    lemma_union_step(8, 0xff0, 0x4_0000_0ff0);
    lemma_union_step(9, 0x4_0000_0ff0, 0x4_0100_0ff0);
    lemma_union_step(10, 0x4_0100_0ff0, 0x204_0100_0ff0);
    lemma_union_step(11, 0x204_0100_0ff0, 0x304_0100_0ff0);
    lemma_union_step(12, 0x304_0100_0ff0, 0xb04_0100_0ff0);
    lemma_union_step(13, 0xb04_0100_0ff0, 0xb84_0100_0ff0);
    lemma_union_step(14, 0xb84_0100_0ff0, 0x2b84_0100_0ff0);
    lemma_union_step(15, 0x2b84_0100_0ff0, 0x3b84_0100_0ff0);
}

proof fn lemma_union_through_24()
    requires
        Capability::union_bits(Capability::catalogue().take(16)) == 0x3b84_0100_0ff0,
    ensures
        Capability::union_bits(Capability::catalogue().take(24)) == 0x3f94_010d_9ff1,
{
    lemma_union_constants();
    lemma_union_step(16, 0x3b84_0100_0ff0, 0x3f84_0100_0ff0);
    lemma_union_step(17, 0x3f84_0100_0ff0, 0x3f84_0101_0ff0);
    lemma_union_step(18, 0x3f84_0101_0ff0, 0x3f84_0101_1ff0);
    lemma_union_step(19, 0x3f84_0101_1ff0, 0x3f94_0101_1ff0);
    lemma_union_step(20, 0x3f94_0101_1ff0, 0x3f94_0101_9ff0);
    lemma_union_step(21, 0x3f94_0101_9ff0, 0x3f94_0101_9ff1);
    lemma_union_step(22, 0x3f94_0101_9ff1, 0x3f94_0105_9ff1);
    lemma_union_step(23, 0x3f94_0105_9ff1, 0x3f94_010d_9ff1);
}

proof fn lemma_union_through_32()
    requires
        Capability::union_bits(Capability::catalogue().take(24)) == 0x3f94_010d_9ff1,
    ensures
        Capability::union_bits(Capability::catalogue().take(32)) == 0x3f95_c5ed_bff1,
{
    lemma_union_constants();
    lemma_union_step(24, 0x3f94_010d_9ff1, 0x3f94_050d_9ff1);
    lemma_union_step(25, 0x3f94_050d_9ff1, 0x3f94_052d_9ff1);
    lemma_union_step(26, 0x3f94_052d_9ff1, 0x3f94_056d_9ff1);
    lemma_union_step(27, 0x3f94_056d_9ff1, 0x3f94_05ed_9ff1);
    lemma_union_step(28, 0x3f94_05ed_9ff1, 0x3f94_05ed_bff1);
    lemma_union_step(29, 0x3f94_05ed_bff1, 0x3f94_45ed_bff1);
    lemma_union_step(30, 0x3f94_45ed_bff1, 0x3f94_c5ed_bff1);
    lemma_union_step(31, 0x3f94_c5ed_bff1, 0x3f95_c5ed_bff1);
}

proof fn lemma_union_through_40()
    requires
        Capability::union_bits(Capability::catalogue().take(32)) == 0x3f95_c5ed_bff1,
    ensures
        Capability::union_bits(Capability::catalogue().take(40)) == 0x3f9f_e5ff_bfff,
{
    lemma_union_constants();
    lemma_union_step(32, 0x3f95_c5ed_bff1, 0x3f97_c5ed_bff1);
    lemma_union_step(33, 0x3f97_c5ed_bff1, 0x3f97_e5ed_bff1);
    lemma_union_step(34, 0x3f97_e5ed_bff1, 0x3f97_e5ed_bff9);
    lemma_union_step(35, 0x3f97_e5ed_bff9, 0x3f97_e5ed_bffd);
    lemma_union_step(36, 0x3f97_e5ed_bffd, 0x3f97_e5fd_bffd);
    lemma_union_step(37, 0x3f97_e5fd_bffd, 0x3f97_e5fd_bfff);
    lemma_union_step(38, 0x3f97_e5fd_bfff, 0x3f97_e5ff_bfff);
    lemma_union_step(39, 0x3f97_e5ff_bfff, 0x3f9f_e5ff_bfff);
}

proof fn lemma_union_through_46()
    requires
        Capability::union_bits(Capability::catalogue().take(40)) == 0x3f9f_e5ff_bfff,
    ensures
        Capability::union_bits(Capability::catalogue().take(46)) == 0x3fff_ffff_ffff,
{
    lemma_union_constants();
    lemma_union_step(40, 0x3f9f_e5ff_bfff, 0x3f9f_edff_bfff);
    lemma_union_step(41, 0x3f9f_edff_bfff, 0x3f9f_edff_ffff);
    lemma_union_step(42, 0x3f9f_edff_ffff, 0x3f9f_fdff_ffff);
    lemma_union_step(43, 0x3f9f_fdff_ffff, 0x3f9f_ffff_ffff);
    lemma_union_step(44, 0x3f9f_ffff_ffff, 0x3fdf_ffff_ffff);
    lemma_union_step(45, 0x3fdf_ffff_ffff, 0x3fff_ffff_ffff);
}

/// The union of the whole catalogue is the constant `NAMED_BITS`.
pub proof fn lemma_catalogue_union()
    ensures
        Capability::union_bits(Capability::catalogue()) == NAMED_BITS,
{
    let catalogue = Capability::catalogue();
    assert(catalogue.take(0) =~= Seq::<Capability>::empty());
    lemma_union_through_8();
    lemma_union_through_16();
    lemma_union_through_24();
    lemma_union_through_32();
    lemma_union_through_40();
    lemma_union_through_46();
    assert(catalogue.take(46) =~= catalogue);
}

proof fn lemma_bit_kept(bits: u64, seen: u64, bit: u64)
    by (bit_vector)
    requires
        is_single_bit(bit),
        bits & bit != 0,
    ensures
        (bits & seen) | bit == bits & (seen | bit),
{
}

proof fn lemma_bit_skipped(bits: u64, seen: u64, bit: u64)
    by (bit_vector)
    requires
        bits & bit == 0,
    ensures
        bits & seen == bits & (seen | bit),
{
}

proof fn lemma_prefix_union(bits: u64, i: int)
    requires
        0 <= i <= Capability::catalogue().len(),
    ensures
        Capability::union_bits(Capability::catalogue().take(i).filter(is_set_in(bits))) == bits
            & Capability::union_bits(Capability::catalogue().take(i)),
    decreases i,
{
    let catalogue = Capability::catalogue();
    reveal(Seq::filter);
    if i == 0 {
        assert(catalogue.take(0) =~= Seq::<Capability>::empty());
        assert(bits & 0 == 0) by (bit_vector);
    } else {
        lemma_prefix_union(bits, i - 1);
        let before = catalogue.take(i - 1);
        let capability = catalogue[i - 1];
        let kept = before.filter(is_set_in(bits));
        catalogue.lemma_take_succ_push(i - 1);
        before.lemma_filter_push(capability, is_set_in(bits));
        assert(before.push(capability).drop_last() =~= before);
        lemma_named_bit_is_single(capability);
        if bits & capability.spec_bits() != 0 {
            assert(kept.push(capability).drop_last() =~= kept);
            lemma_bit_kept(bits, Capability::union_bits(before), capability.spec_bits());
        } else {
            lemma_bit_skipped(bits, Capability::union_bits(before), capability.spec_bits());
        }
    }
}

/// The named members of a field make up its named part: their union is the
/// field without its unnamed bits.
pub proof fn lemma_members_union(bits: u64)
    ensures
        Capability::union_bits(members_of(bits)) == bits & NAMED_BITS,
{
    let catalogue = Capability::catalogue();
    lemma_prefix_union(bits, catalogue.len() as int);
    assert(catalogue.take(catalogue.len() as int) =~= catalogue);
    lemma_catalogue_union();
}

/// A named capability is a member of a field exactly when its bit is set.
pub proof fn lemma_member_iff_set(bits: u64, capability: Capability)
    ensures
        members_of(bits).contains(capability) <==> bits & capability.spec_bits() != 0,
{
    let catalogue = Capability::catalogue();
    let members = members_of(bits);
    if members.contains(capability) {
        let i = choose|i: int| 0 <= i < members.len() && members[i] == capability;
        catalogue.lemma_filter_pred(is_set_in(bits), i);
    }
    if bits & capability.spec_bits() != 0 {
        lemma_catalogue_complete(capability);
        catalogue.lemma_filter_contains(is_set_in(bits), capability.spec_position());
    }
}

proof fn lemma_or_within(a: u64, b: u64, mask: u64)
    by (bit_vector)
    requires
        a & mask == a,
        b & mask == b,
    ensures
        (a | b) & mask == a | b,
{
}

proof fn lemma_named_within_constants()
    by (bit_vector)
    ensures
        0x800u64 & 0x3fff_ffff_ffffu64 == 0x800u64,
        0x400u64 & 0x3fff_ffff_ffffu64 == 0x400u64,
        0x200u64 & 0x3fff_ffff_ffffu64 == 0x200u64,
        0x10u64 & 0x3fff_ffff_ffffu64 == 0x10u64,
        0x80u64 & 0x3fff_ffff_ffffu64 == 0x80u64,
        0x100u64 & 0x3fff_ffff_ffffu64 == 0x100u64,
        0x20u64 & 0x3fff_ffff_ffffu64 == 0x20u64,
        0x40u64 & 0x3fff_ffff_ffffu64 == 0x40u64,
        0x4_0000_0000u64 & 0x3fff_ffff_ffffu64 == 0x4_0000_0000u64,
        0x100_0000u64 & 0x3fff_ffff_ffffu64 == 0x100_0000u64,
        0x200_0000_0000u64 & 0x3fff_ffff_ffffu64 == 0x200_0000_0000u64,
        0x100_0000_0000u64 & 0x3fff_ffff_ffffu64 == 0x100_0000_0000u64,
        0x800_0000_0000u64 & 0x3fff_ffff_ffffu64 == 0x800_0000_0000u64,
        0x80_0000_0000u64 & 0x3fff_ffff_ffffu64 == 0x80_0000_0000u64,
        0x2000_0000_0000u64 & 0x3fff_ffff_ffffu64 == 0x2000_0000_0000u64,
        0x1000_0000_0000u64 & 0x3fff_ffff_ffffu64 == 0x1000_0000_0000u64,
        0x400_0000_0000u64 & 0x3fff_ffff_ffffu64 == 0x400_0000_0000u64,
        0x1_0000u64 & 0x3fff_ffff_ffffu64 == 0x1_0000u64,
        0x1000u64 & 0x3fff_ffff_ffffu64 == 0x1000u64,
        0x10_0000_0000u64 & 0x3fff_ffff_ffffu64 == 0x10_0000_0000u64,
        0x8000u64 & 0x3fff_ffff_ffffu64 == 0x8000u64,
        0x1u64 & 0x3fff_ffff_ffffu64 == 0x1u64,
        0x4_0000u64 & 0x3fff_ffff_ffffu64 == 0x4_0000u64,
        0x8_0000u64 & 0x3fff_ffff_ffffu64 == 0x8_0000u64,
        0x400_0000u64 & 0x3fff_ffff_ffffu64 == 0x400_0000u64,
        0x20_0000u64 & 0x3fff_ffff_ffffu64 == 0x20_0000u64,
        0x40_0000u64 & 0x3fff_ffff_ffffu64 == 0x40_0000u64,
        0x80_0000u64 & 0x3fff_ffff_ffffu64 == 0x80_0000u64,
        0x2000u64 & 0x3fff_ffff_ffffu64 == 0x2000u64,
        0x4000_0000u64 & 0x3fff_ffff_ffffu64 == 0x4000_0000u64,
        0x8000_0000u64 & 0x3fff_ffff_ffffu64 == 0x8000_0000u64,
        0x1_0000_0000u64 & 0x3fff_ffff_ffffu64 == 0x1_0000_0000u64,
        0x2_0000_0000u64 & 0x3fff_ffff_ffffu64 == 0x2_0000_0000u64,
        0x2000_0000u64 & 0x3fff_ffff_ffffu64 == 0x2000_0000u64,
        0x8u64 & 0x3fff_ffff_ffffu64 == 0x8u64,
        0x4u64 & 0x3fff_ffff_ffffu64 == 0x4u64,
        0x10_0000u64 & 0x3fff_ffff_ffffu64 == 0x10_0000u64,
        0x2u64 & 0x3fff_ffff_ffffu64 == 0x2u64,
        0x2_0000u64 & 0x3fff_ffff_ffffu64 == 0x2_0000u64,
        0x8_0000_0000u64 & 0x3fff_ffff_ffffu64 == 0x8_0000_0000u64,
        0x800_0000u64 & 0x3fff_ffff_ffffu64 == 0x800_0000u64,
        0x4000u64 & 0x3fff_ffff_ffffu64 == 0x4000u64,
        0x1000_0000u64 & 0x3fff_ffff_ffffu64 == 0x1000_0000u64,
        0x200_0000u64 & 0x3fff_ffff_ffffu64 == 0x200_0000u64,
        0x40_0000_0000u64 & 0x3fff_ffff_ffffu64 == 0x40_0000_0000u64,
        0x20_0000_0000u64 & 0x3fff_ffff_ffffu64 == 0x20_0000_0000u64,
{
}

/// A union of named capabilities has no unnamed bit.
pub proof fn lemma_union_is_named(capabilities: Seq<Capability>)
    ensures
        Capability::union_bits(capabilities) & NAMED_BITS == Capability::union_bits(capabilities),
    decreases capabilities.len(),
{
    if capabilities.len() == 0 {
        assert(0u64 & 0x3fff_ffff_ffffu64 == 0u64) by (bit_vector);
    } else {
        lemma_union_is_named(capabilities.drop_last());
        lemma_named_within_constants();
        lemma_or_within(
            Capability::union_bits(capabilities.drop_last()),
            capabilities.last().spec_bits(),
            NAMED_BITS,
        );
    }
}

/// What parsing makes of every input: any length but eight is a length
/// error, and eight bytes are read as a big-endian field, kept whole, with
/// its named members beside it.
pub proof fn lemma_parse_reads_big_endian(bytes: Seq<u8>)
    ensures
        bytes.len() != CAPABILITY_BYTES ==> Capability::spec_parse(bytes) == Err::<
            (u64, Seq<Capability>),
            DecodeError,
        >(DecodeError::WrongLength { expected: CAPABILITY_BYTES, actual: bytes.len() as usize }),
        bytes.len() == CAPABILITY_BYTES ==> Capability::spec_parse(bytes) == Ok::<
            (u64, Seq<Capability>),
            DecodeError,
        >((u64_from_be_bytes(bytes), members_of(u64_from_be_bytes(bytes)))),
{
}

/// Decoding is the inverse of encoding: the encoding of a field parses to
/// that field, with its named members.
pub proof fn lemma_parse_inverts_encoding(bits: u64)
    ensures
        Capability::spec_parse(u64_to_be_bytes(bits)) == Ok::<(u64, Seq<Capability>), DecodeError>(
            (bits, members_of(bits)),
        ),
{
    lemma_u64_round_trip(bits);
}

/// A set built from named capabilities alone survives encoding and
/// parsing: the union of the members that come back is the set that went in.
pub proof fn lemma_named_set_round_trip(capabilities: Seq<Capability>)
    ensures
        ({
            let bits = Capability::union_bits(capabilities);
            &&& Capability::spec_parse(u64_to_be_bytes(bits)) matches Ok((decoded, members))
            &&& decoded == bits
            &&& Capability::union_bits(members) == bits
        }),
{
    let bits = Capability::union_bits(capabilities);
    lemma_parse_inverts_encoding(bits);
    lemma_members_union(bits);
    lemma_union_is_named(capabilities);
}

} // verus!
