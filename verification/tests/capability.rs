use hsm_client::capability::{Capability, CapabilitySet, CAPABILITY_BYTES, NAMED_BITS};
use hsm_client::error::DecodeError;

#[test]
fn iter_lists_the_catalogue_in_declaration_order() {
    let all = Capability::iter();
    assert_eq!(all.len(), 46);
    assert_eq!(all[0], Capability::ASYMMETRIC_DECRYPT_ECDH);
    assert_eq!(all[1], Capability::ASYMMETRIC_DECRYPT_OAEP);
    assert_eq!(all[8], Capability::ATTEST);
    assert_eq!(all[21], Capability::GET_OPAQUE);
    assert_eq!(all[37], Capability::PUT_OPAQUE);
    assert_eq!(all[45], Capability::WRAP_DATA);
}

#[test]
fn iter_is_restartable() {
    assert_eq!(Capability::iter(), Capability::iter());
}

#[test]
fn catalogue_entries_are_distinct_single_bits() {
    let all = Capability::iter();
    let mut seen: u64 = 0;
    for capability in all {
        let bits = capability.bits();
        assert_eq!(bits.count_ones(), 1);
        assert_eq!(seen & bits, 0);
        seen |= bits;
    }
    assert_eq!(seen, NAMED_BITS);
    assert_eq!(seen, 0x3fff_ffff_ffff);
}

#[test]
fn bits_of_named_capabilities() {
    assert_eq!(Capability::GET_OPAQUE.bits(), 0x1);
    assert_eq!(Capability::PUT_OPAQUE.bits(), 0x2);
    assert_eq!(Capability::ASYMMETRIC_DECRYPT_ECDH.bits(), 0x800);
    assert_eq!(Capability::EXPORT_WRAPPED.bits(), 0x1000);
    assert_eq!(Capability::ATTEST.bits(), 0x4_0000_0000);
    assert_eq!(Capability::DELETE_OTP_AEAD_KEY.bits(), 0x2000_0000_0000);
}

#[test]
fn names_of_named_capabilities() {
    assert_eq!(Capability::GET_OPAQUE.name(), "get_opaque");
    assert_eq!(Capability::ASYMMETRIC_DECRYPT_ECDH.name(), "asymmetric_decrypt_ecdh");
    assert_eq!(Capability::DELETE_HMACKEY.name(), "delete_hmac_key");
    assert_eq!(Capability::WRAP_DATA.name(), "wrap_data");
}

#[test]
fn bitfield_is_the_union_of_the_bits() {
    assert_eq!(Capability::bitfield(&[]), 0);
    assert_eq!(Capability::bitfield(&[Capability::GET_OPAQUE]), 0x1);
    assert_eq!(Capability::bitfield(&[Capability::GET_OPAQUE, Capability::PUT_OPAQUE]), 0x3);
    assert_eq!(
        Capability::bitfield(&[Capability::PUT_OPAQUE, Capability::PUT_OPAQUE, Capability::RESET]),
        0x1000_0002
    );
    assert_eq!(Capability::bitfield(&Capability::iter()), NAMED_BITS);
}

#[test]
fn parse_rejects_every_length_but_eight() {
    for length in [0usize, 1, 7, 9, 16] {
        let bytes = vec![0u8; length];
        assert_eq!(
            Capability::parse(&bytes),
            Err(DecodeError::WrongLength { expected: 8, actual: length })
        );
    }
    assert_eq!(CAPABILITY_BYTES, 8);
}

#[test]
fn parse_reads_a_big_endian_field() {
    let bytes = [0x01, 0x23, 0x45, 0x67, 0x89, 0xab, 0xcd, 0xef];
    let (set, _) = Capability::parse(&bytes).unwrap();
    assert_eq!(set.to_bitfield(), 0x0123_4567_89ab_cdef);
}

#[test]
fn parse_keeps_unknown_bits_but_does_not_name_them() {
    let bytes = [0x80, 0, 0, 0, 0, 0, 0, 0x03];
    let (set, members) = Capability::parse(&bytes).unwrap();
    assert_eq!(set.to_bitfield(), 0x8000_0000_0000_0003);
    assert_eq!(members, vec![Capability::GET_OPAQUE, Capability::PUT_OPAQUE]);
    assert_eq!(Capability::bitfield(&members), 0x3);
}

#[test]
fn parse_lists_members_in_catalogue_order() {
    let field: u64 = 0x800 | 0x1 | 0x20_0000_0000 | 0x10;
    let (_, members) = Capability::parse(&field.to_be_bytes()).unwrap();
    assert_eq!(
        members,
        vec![
            Capability::ASYMMETRIC_DECRYPT_ECDH,
            Capability::ASYMMETRIC_GEN,
            Capability::GET_OPAQUE,
            Capability::WRAP_DATA,
        ]
    );
}

#[test]
fn parse_of_nothing_set_has_no_members() {
    let (set, members) = Capability::parse(&[0u8; 8]).unwrap();
    assert_eq!(set.to_bitfield(), 0);
    assert!(members.is_empty());
}

#[test]
fn get_and_put_opaque_encode_as_three_and_parse_back() {
    let set = CapabilitySet::from_capabilities(&[Capability::GET_OPAQUE, Capability::PUT_OPAQUE]);
    assert_eq!(set.to_bitfield(), 0x0000_0000_0000_0003);
    let bytes = set.to_bytes();
    assert_eq!(bytes, vec![0, 0, 0, 0, 0, 0, 0, 3]);
    let (parsed, members) = Capability::parse(&bytes).unwrap();
    assert_eq!(parsed, set);
    assert_eq!(members, vec![Capability::GET_OPAQUE, Capability::PUT_OPAQUE]);
    for capability in Capability::iter() {
        let expected =
            capability == Capability::GET_OPAQUE || capability == Capability::PUT_OPAQUE;
        assert_eq!(parsed.contains(capability), expected);
    }
}

#[test]
fn named_sets_survive_encoding_and_parsing() {
    let all = Capability::iter();
    for start in 0..all.len() {
        let chosen: Vec<Capability> = all.iter().copied().skip(start).step_by(3).collect();
        let set = CapabilitySet::from_capabilities(&chosen);
        let (parsed, members) = Capability::parse(&set.to_bytes()).unwrap();
        assert_eq!(parsed.to_bitfield(), set.to_bitfield());
        assert_eq!(Capability::bitfield(&members), set.to_bitfield());
    }
}

#[test]
fn to_bytes_is_most_significant_first() {
    let set = CapabilitySet::from_bits(0x0102_0304_0506_0708);
    assert_eq!(set.to_bytes(), vec![1, 2, 3, 4, 5, 6, 7, 8]);
}

#[test]
fn from_bits_accepts_every_value() {
    assert_eq!(CapabilitySet::from_bits(0).to_bitfield(), 0);
    assert_eq!(CapabilitySet::from_bits(u64::MAX).to_bitfield(), u64::MAX);
    assert_eq!(CapabilitySet::from_bits(u64::MAX).members(), Capability::iter());
}

#[test]
fn union_and_contains() {
    let a = CapabilitySet::from_capabilities(&[Capability::RESET]);
    let b = CapabilitySet::from_capabilities(&[Capability::AUDIT]);
    let both = a.union(&b);
    assert_eq!(both.to_bitfield(), 0x1000_0000 | 0x100_0000);
    assert!(both.contains(Capability::RESET));
    assert!(both.contains(Capability::AUDIT));
    assert!(!both.contains(Capability::ATTEST));
    assert_eq!(both.members(), vec![Capability::AUDIT, Capability::RESET]);
}
