use wolfssl::dh::{named_q, FFDHE_2048, FFDHE_8192};
use wolfssl::ecc::{export_encoding, SECP256R1, TYPE_HEX_STR, TYPE_UNSIGNED_BIN};
use wolfssl::ecc::{check_c_string, check_unsigned_components};
use wolfssl::ed25519::{
    checked_context_size, optional_context_size, ED25519, ED25519CTX, ED25519PH, MAX_CONTEXT_SIZE,
};
use wolfssl::status::BAD_FUNC_ARG;

#[test]
fn ecc_export_encoding() {
    assert_eq!(export_encoding(true), TYPE_HEX_STR);
    assert_eq!(export_encoding(false), TYPE_UNSIGNED_BIN);
    assert_eq!(export_encoding(true), 1);
    assert_eq!(export_encoding(false), 2);
}

#[test]
fn ecc_curve_identifier() {
    assert_eq!(SECP256R1, 7);
}

#[test]
fn ed25519_types() {
    assert_eq!(ED25519, 255);
    assert_eq!(ED25519CTX, 0);
    assert_eq!(ED25519PH, 1);
}

#[test]
fn ed25519_context_sizes() {
    assert_eq!(MAX_CONTEXT_SIZE, 255);
    assert_eq!(checked_context_size(b"context"), Ok(7));
    assert_eq!(checked_context_size(&[]), Ok(0));
    assert_eq!(checked_context_size(&[0u8; 255]), Ok(255));
    assert_eq!(optional_context_size(None), Ok(0));
    assert_eq!(optional_context_size(Some(b"abc")), Ok(3));
}

#[test]
fn ed25519_long_context_is_refused() {
    assert_eq!(checked_context_size(&[0u8; 256]), Err(BAD_FUNC_ARG));
    assert_eq!(checked_context_size(&[0u8; 300]), Err(-173));
    assert_eq!(optional_context_size(Some(&[0u8; 256])), Err(BAD_FUNC_ARG));
}

#[test]
fn ecc_c_strings_need_terminator() {
    assert_eq!(check_c_string(b"SECP256R1\0"), Ok(()));
    assert_eq!(check_c_string(b"\0"), Ok(()));
    assert_eq!(check_c_string(b"ab\0cd"), Ok(()));
    assert_eq!(check_c_string(b"SECP256R1"), Err(BAD_FUNC_ARG));
    assert_eq!(check_c_string(b""), Err(BAD_FUNC_ARG));
}

#[test]
fn ecc_unsigned_components_cover_curve_size() {
    let k = [1u8; 32];
    assert_eq!(check_unsigned_components(&k, &k, &k, Ok(32)), Ok(()));
    assert_eq!(check_unsigned_components(&[1u8; 48], &k, &k, Ok(32)), Ok(()));
    assert_eq!(check_unsigned_components(&k, &k[..31], &k, Ok(32)), Err(BAD_FUNC_ARG));
    assert_eq!(check_unsigned_components(&k, &k, &[], Ok(32)), Err(BAD_FUNC_ARG));
    assert_eq!(check_unsigned_components(&k, &k, &k, Err(-170)), Err(-170));
}

#[test]
fn dh_named_q() {
    let n = named_q(None);
    assert_eq!((n.no_q, n.q_size), (1, 0));
    let q = [0u8; 28];
    let n = named_q(Some(&q));
    assert_eq!((n.no_q, n.q_size), (0, 28));
    let n = named_q(Some(&[]));
    assert_eq!((n.no_q, n.q_size), (0, 0));
}

#[test]
fn dh_named_sets_share_value() {
    assert_eq!(FFDHE_2048, 256);
    assert_eq!(FFDHE_8192, FFDHE_2048);
}
