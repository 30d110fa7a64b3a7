use cryptobox::bytes::{copy_bytes, same_bytes};
use cryptobox::hex::{hex_str_to_bytes, parse_hex};
use cryptobox::keys::{IdentityKey, PreKeyId, MAX_PREKEY_ID};
use cryptobox::layout::{
    decode_version, encode_version, prekey_file, startup, temp_file, Startup, CURRENT_VERSION,
    IDENTITIES_DIR, IDENTITY_FILE, PREKEYS_DIR, SESSIONS_DIR, VERSION_FILE,
};
use cryptobox::text::{to_decimal, to_hex};

#[test]
fn hex_is_lower_case_high_half_first() {
    assert_eq!(to_hex(&[]), "");
    assert_eq!(to_hex(&[0x00, 0x0f, 0xa0, 0xff, 0x1b]), "000fa0ff1b");
}

#[test]
fn fingerprint_is_the_public_key_in_hex() {
    let key = IdentityKey::new(vec![0xde, 0xad, 0xbe, 0xef], vec![0x00]);
    assert_eq!(key.fingerprint(), "deadbeef");
}

#[test]
fn decimal_has_no_leading_zeros() {
    assert_eq!(to_decimal(0), "0");
    assert_eq!(to_decimal(5), "5");
    assert_eq!(to_decimal(10), "10");
    assert_eq!(to_decimal(907), "907");
    assert_eq!(to_decimal(65535), "65535");
}

#[test]
fn dumps_are_read_two_digits_at_a_time() {
    assert_eq!(parse_hex(""), Some(vec![]));
    assert_eq!(parse_hex("00ff10"), Some(vec![0x00, 0xff, 0x10]));
    assert_eq!(parse_hex("DeadBEEF"), Some(vec![0xde, 0xad, 0xbe, 0xef]));
    assert_eq!(hex_str_to_bytes("a1000102"), vec![0xa1, 0x00, 0x01, 0x02]);
}

#[test]
fn a_last_digit_left_over_is_read_alone() {
    assert_eq!(parse_hex("abc"), Some(vec![0xab, 0x0c]));
    assert_eq!(parse_hex("f"), Some(vec![0x0f]));
}

#[test]
fn a_plus_sign_before_a_digit_is_passed_over() {
    assert_eq!(parse_hex("+f"), Some(vec![0x0f]));
    assert_eq!(parse_hex("10+a"), Some(vec![0x10, 0x0a]));
    assert_eq!(parse_hex("+"), None);
    assert_eq!(parse_hex("++"), None);
    assert_eq!(parse_hex("a+"), None);
}

#[test]
fn what_is_no_digit_is_no_dump() {
    assert_eq!(parse_hex("zz"), None);
    assert_eq!(parse_hex("0g"), None);
    assert_eq!(parse_hex("12 34"), None);
    assert_eq!(parse_hex("-1"), None);
    assert_eq!(parse_hex("\u{e9}\u{e9}"), None);
    assert_eq!(parse_hex("ab\u{20ac}"), None);
}

#[test]
fn byte_helpers_compare_and_copy() {
    assert!(same_bytes(&[], &[]));
    assert!(same_bytes(&[1, 2, 3], &[1, 2, 3]));
    assert!(!same_bytes(&[1, 2, 3], &[1, 2, 4]));
    assert!(!same_bytes(&[1, 2, 3], &[1, 2]));
    assert_eq!(copy_bytes(&[9, 8, 7]), vec![9, 8, 7]);
}

#[test]
fn version_marker_is_two_bytes_high_first() {
    assert_eq!(CURRENT_VERSION, 1);
    assert_eq!(encode_version(1), vec![0x00, 0x01]);
    assert_eq!(encode_version(0x1234), vec![0x12, 0x34]);
    assert_eq!(decode_version(&[0x00, 0x01]), Some(1));
    assert_eq!(decode_version(&[0x12, 0x34]), Some(0x1234));
    assert_eq!(decode_version(&[0x12, 0x34, 0x56]), Some(0x1234));
    assert_eq!(decode_version(&[0x12]), None);
    assert_eq!(decode_version(&[]), None);
    assert_eq!(decode_version(&encode_version(65535)), Some(65535));
}

#[test]
fn a_directory_without_marker_is_initialised() {
    assert_eq!(startup(None), Startup::Initialise);
    assert_eq!(startup(Some(0)), Startup::Migrate(0));
    assert_eq!(startup(Some(1)), Startup::Ready);
    assert_eq!(startup(Some(2)), Startup::Ready);
    assert_eq!(startup(decode_version(&encode_version(CURRENT_VERSION))), Startup::Ready);
}

#[test]
fn files_are_named_as_laid_out() {
    assert_eq!(SESSIONS_DIR, "sessions");
    assert_eq!(PREKEYS_DIR, "prekeys");
    assert_eq!(IDENTITIES_DIR, "identities");
    assert_eq!(IDENTITY_FILE, "local");
    assert_eq!(VERSION_FILE, "version");
    assert_eq!(prekey_file(PreKeyId::new(5)), "5");
    assert_eq!(prekey_file(PreKeyId::new(MAX_PREKEY_ID)), "65535");
    assert_eq!(temp_file("local"), "local.tmp");
}

#[test]
fn prekey_ids_know_the_last_resort() {
    assert_eq!(MAX_PREKEY_ID, 65535);
    assert_eq!(PreKeyId::new(5).value(), 5);
    assert!(PreKeyId::new(65535).is_last_resort());
    assert!(!PreKeyId::new(65534).is_last_resort());
    assert_eq!(PreKeyId::new(7), PreKeyId::new(7));
    assert_ne!(PreKeyId::new(7), PreKeyId::new(8));
}
