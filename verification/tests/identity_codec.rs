use cryptobox::error::{CBoxError, DecodeFailure};
use cryptobox::identity::{Identity, IdentityMode, IdentityRecord};
use cryptobox::keys::{IdentityKey, IdentityKeyPair};

fn payload() -> Vec<u8> {
    // an object of one field: 0 => 5
    vec![0xa1, 0x00, 0x05]
}

fn pair() -> IdentityKeyPair {
    let key = IdentityKey::new(vec![7u8; 32], vec![0xa1, 0x00, 0x07]);
    IdentityKeyPair::new(key, payload())
}

#[test]
fn secret_identity_is_framed_with_tag_one() {
    let bytes = Identity::Sec(pair()).serialise().unwrap();
    assert_eq!(bytes, vec![0x01, 0xa1, 0x00, 0xa1, 0x00, 0x05]);
}

#[test]
fn public_identity_is_framed_with_tag_two() {
    let bytes = Identity::Pub(pair().public_key).serialise().unwrap();
    assert_eq!(bytes, vec![0x02, 0xa1, 0x00, 0xa1, 0x00, 0x07]);
}

#[test]
fn secret_identity_round_trips() {
    let id = Identity::Sec(pair());
    let rec = Identity::deserialise(&id.serialise().unwrap()).unwrap();
    assert_eq!(rec.mode, IdentityMode::Complete);
    assert_eq!(rec.payload, payload());
}

#[test]
fn public_identity_round_trips() {
    let id = Identity::Pub(pair().public_key);
    let rec = Identity::deserialise(&id.serialise().unwrap()).unwrap();
    assert_eq!(rec.mode, IdentityMode::Public);
    assert_eq!(rec.payload, vec![0xa1, 0x00, 0x07]);
}

#[test]
fn record_of_an_identity_names_its_kind_and_encoding() {
    let rec = Identity::Sec(pair()).record();
    assert_eq!(rec.mode, IdentityMode::Complete);
    assert_eq!(rec.payload, payload());
    let rec = Identity::Pub(pair().public_key).record();
    assert_eq!(rec.mode, IdentityMode::Public);
    assert_eq!(rec.payload, vec![0xa1, 0x00, 0x07]);
}

#[test]
fn unknown_fields_are_skipped() {
    // tag 2, object of 3 fields: 7 => 42, 0 => payload, 9 => "ab"
    let mut bytes = vec![0x02, 0xa3, 0x07, 0x18, 0x2a, 0x00];
    bytes.extend_from_slice(&payload());
    bytes.extend_from_slice(&[0x09, 0x62, 0x61, 0x62]);
    let rec = IdentityRecord::decode(&bytes).unwrap();
    assert_eq!(rec.mode, IdentityMode::Public);
    assert_eq!(rec.payload, payload());
}

#[test]
fn unknown_field_with_nested_value_is_skipped() {
    // field 3 => [1, [2, 3], {4: 5}], then field 0
    let mut bytes = vec![0x01, 0xa2, 0x03, 0x83, 0x01, 0x82, 0x02, 0x03, 0xa1, 0x04, 0x05, 0x00];
    bytes.extend_from_slice(&payload());
    let rec = IdentityRecord::decode(&bytes).unwrap();
    assert_eq!(rec.mode, IdentityMode::Complete);
    assert_eq!(rec.payload, payload());
}

#[test]
fn duplicate_field_is_rejected() {
    let mut bytes = vec![0x01, 0xa2, 0x00];
    bytes.extend_from_slice(&payload());
    bytes.push(0x00);
    bytes.extend_from_slice(&payload());
    let e = IdentityRecord::decode(&bytes).unwrap_err();
    assert!(matches!(e, DecodeFailure::DuplicateField("identity keypair")));
}

#[test]
fn duplicate_field_of_a_public_record_is_rejected() {
    let mut bytes = vec![0x02, 0xa2, 0x00];
    bytes.extend_from_slice(&payload());
    bytes.push(0x00);
    bytes.extend_from_slice(&payload());
    let e = IdentityRecord::decode(&bytes).unwrap_err();
    assert!(matches!(e, DecodeFailure::DuplicateField("identity key")));
}

#[test]
fn missing_field_is_rejected() {
    let e = IdentityRecord::decode(&[0x02, 0xa0]).unwrap_err();
    assert!(matches!(e, DecodeFailure::MissingField("identity key")));
    let e = IdentityRecord::decode(&[0x01, 0xa1, 0x05, 0x00]).unwrap_err();
    assert!(matches!(e, DecodeFailure::MissingField("identity keypair")));
}

#[test]
fn unknown_tag_is_an_invalid_type() {
    let e = IdentityRecord::decode(&[0x03, 0xa0]).unwrap_err();
    assert!(matches!(e, DecodeFailure::InvalidType(3, "unknown identity type")));
    let e = IdentityRecord::decode(&[0x00, 0xa0]).unwrap_err();
    assert!(matches!(e, DecodeFailure::InvalidType(0, "unknown identity type")));
    // 200, in the two-byte form
    let e = IdentityRecord::decode(&[0x18, 0xc8]).unwrap_err();
    assert!(matches!(e, DecodeFailure::InvalidType(200, "unknown identity type")));
}

#[test]
fn empty_input_is_refused_by_the_codec() {
    let e = IdentityRecord::decode(&[]).unwrap_err();
    assert!(matches!(e, DecodeFailure::Decoder(_)));
}

#[test]
fn input_that_ends_early_is_refused_by_the_codec() {
    assert!(matches!(IdentityRecord::decode(&[0x01]).unwrap_err(), DecodeFailure::Decoder(_)));
    assert!(matches!(IdentityRecord::decode(&[0x01, 0xa1]).unwrap_err(), DecodeFailure::Decoder(_)));
    assert!(matches!(
        IdentityRecord::decode(&[0x01, 0xa1, 0x00]).unwrap_err(),
        DecodeFailure::Decoder(_)
    ));
}

#[test]
fn payload_cut_short_is_rejected() {
    // a byte string that says 5 bytes and has 1
    let e = IdentityRecord::decode(&[0x01, 0xa1, 0x00, 0x45, 0x01]).unwrap_err();
    assert!(matches!(e, DecodeFailure::Truncated("identity keypair")));
}

#[test]
fn a_wider_number_is_no_tag() {
    // 256 as a 16-bit number
    let e = IdentityRecord::decode(&[0x19, 0x01, 0x00, 0xa0]).unwrap_err();
    assert!(matches!(e, DecodeFailure::Decoder(_)));
}

#[test]
fn object_of_unknown_length_is_refused() {
    let e = IdentityRecord::decode(&[0x01, 0xbf, 0x00, 0x05, 0xff]).unwrap_err();
    assert!(matches!(e, DecodeFailure::Decoder(_)));
}

#[test]
fn two_byte_forms_are_read_by_the_codec() {
    // tag 1 as 0x18 0x01, object head with its length in a byte of its own
    let mut bytes = vec![0x18, 0x01, 0xb8, 0x01, 0x18, 0x00];
    bytes.extend_from_slice(&payload());
    let rec = IdentityRecord::decode(&bytes).unwrap();
    assert_eq!(rec.mode, IdentityMode::Complete);
    assert_eq!(rec.payload, payload());
}

#[test]
fn payload_is_taken_as_it_stands() {
    // a byte string of 4 bytes as payload, with a field behind it
    let bytes = vec![0x01, 0xa2, 0x00, 0x44, 0xde, 0xad, 0xbe, 0xef, 0x01, 0xf6];
    let rec = IdentityRecord::decode(&bytes).unwrap();
    assert_eq!(rec.payload, vec![0x44, 0xde, 0xad, 0xbe, 0xef]);
}

#[test]
fn well_formed_payload_is_one_item() {
    assert!(IdentityRecord::new(IdentityMode::Complete, payload()).is_well_formed());
    assert!(IdentityRecord::new(IdentityMode::Public, vec![0x44, 1, 2, 3, 4]).is_well_formed());
    // cut short
    assert!(!IdentityRecord::new(IdentityMode::Complete, vec![0x45, 0x01]).is_well_formed());
    // two items
    assert!(!IdentityRecord::new(IdentityMode::Complete, vec![0x01, 0x02]).is_well_formed());
    // nothing
    assert!(!IdentityRecord::new(IdentityMode::Complete, vec![]).is_well_formed());
}

#[test]
fn well_formed_record_reads_back_as_itself() {
    let rec = IdentityRecord::new(IdentityMode::Public, vec![0x83, 0x01, 0x02, 0x03]);
    assert!(rec.is_well_formed());
    let back = IdentityRecord::decode(&rec.encode().unwrap()).unwrap();
    assert_eq!(back.mode, rec.mode);
    assert_eq!(back.payload, rec.payload);
}

#[test]
fn every_record_can_be_written() {
    // whatever the payload holds, also where it is no item
    let rec = IdentityRecord::new(IdentityMode::Complete, vec![]);
    assert_eq!(rec.encode().unwrap(), vec![0x01, 0xa1, 0x00]);
    let rec = IdentityRecord::new(IdentityMode::Public, vec![0xff; 70000]);
    let bytes = rec.encode().unwrap();
    assert_eq!(bytes.len(), 70003);
    assert_eq!(&bytes[..3], &[0x02, 0xa1, 0x00]);
    assert!(bytes[3..].iter().all(|b| *b == 0xff));
    let key = IdentityKey::new(vec![], vec![]);
    assert_eq!(Identity::Pub(key).serialise().unwrap(), vec![0x02, 0xa1, 0x00]);
}

#[test]
fn key_pair_is_had_from_a_complete_record_only() {
    let rec = IdentityRecord::new(IdentityMode::Complete, payload());
    assert_eq!(rec.key_pair().unwrap(), payload());
    let rec = IdentityRecord::new(IdentityMode::Public, payload());
    assert!(matches!(rec.key_pair(), Err(CBoxError::IdentityError)));
}

#[test]
fn decode_failures_have_a_text() {
    assert_eq!(
        DecodeFailure::InvalidType(3, "unknown identity type").to_string(),
        "DecodeFailure: invalid type 3: unknown identity type"
    );
    assert_eq!(
        DecodeFailure::MissingField("identity key").to_string(),
        "DecodeFailure: missing field: identity key"
    );
    assert_eq!(
        DecodeFailure::DuplicateField("identity keypair").to_string(),
        "DecodeFailure: duplicate field: identity keypair"
    );
    assert_eq!(
        DecodeFailure::Truncated("identity keypair").to_string(),
        "DecodeFailure: truncated field: identity keypair"
    );
    assert_eq!(DecodeFailure::Decoder("eof".to_string()).to_string(), "DecodeFailure: eof");
}
