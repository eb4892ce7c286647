use wolfssl::aes::{
    ccm_sizes, check_iv, direction, eax_sizes, gcm_sizes, AES_BLOCK_SIZE, AES_DECRYPTION,
    AES_ENCRYPTION,
};
use wolfssl::status::BAD_FUNC_ARG;

#[test]
fn direction_codes() {
    assert_eq!(direction(true), AES_ENCRYPTION);
    assert_eq!(direction(false), AES_DECRYPTION);
    assert_eq!(AES_ENCRYPTION, 0);
    assert_eq!(AES_DECRYPTION, 1);
}

#[test]
fn iv_of_one_block_is_accepted() {
    assert_eq!(AES_BLOCK_SIZE, 16);
    assert_eq!(check_iv(b"1234567890abcdef"), Ok(()));
}

#[test]
fn iv_of_other_length_is_refused() {
    assert_eq!(check_iv(&[0u8; 15]), Err(BAD_FUNC_ARG));
    assert_eq!(check_iv(&[0u8; 17]), Err(BAD_FUNC_ARG));
    assert_eq!(check_iv(&[]), Err(BAD_FUNC_ARG));
}

#[test]
fn ccm_sizes_of_bytes() {
    let din = [0u8; 32];
    let dout = [0u8; 32];
    let nonce = [0u8; 12];
    let auth = [0u8; 20];
    let tag = [0u8; 16];
    let s = ccm_sizes(&din, &dout, &nonce, &auth, &tag).expect("sizes");
    assert_eq!((s.data, s.nonce, s.auth, s.tag), (32, 12, 20, 16));
}

#[test]
fn ccm_measures_each_buffer_in_its_own_bytes() {
    let din = [0u32; 4];
    let dout = [0u32; 4];
    let nonce = [0u8; 13];
    let auth = [0u8; 16];
    let tag = [0u8; 16];
    let s = ccm_sizes(&din, &dout, &nonce, &auth, &tag).expect("sizes");
    assert_eq!((s.data, s.nonce, s.auth, s.tag), (16, 13, 16, 16));
    let s = ccm_sizes(&[0u8; 32], &[0u16; 16], &[0u16; 6], &[0u32; 5], &[0u32; 4]).expect("sizes");
    assert_eq!((s.data, s.nonce, s.auth, s.tag), (32, 12, 20, 16));
}

#[test]
fn ccm_refuses_unequal_data() {
    let r = ccm_sizes(&[0u8; 32], &[0u8; 31], &[0u8; 12], &[0u8; 0], &[0u8; 16]);
    assert_eq!(r.err(), Some(BAD_FUNC_ARG));
}

#[test]
fn gcm_sizes_of_buffers() {
    let s = gcm_sizes(&[0u32; 8], &[0u8; 32], &[0u8; 12], &[0u8; 5], &[0u8; 16]).expect("sizes");
    assert_eq!((s.data, s.nonce, s.auth, s.tag), (32, 12, 5, 16));
    let r = gcm_sizes(&[0u32; 8], &[0u8; 8], &[0u8; 12], &[0u8; 5], &[0u8; 16]);
    assert_eq!(r.err(), Some(BAD_FUNC_ARG));
}

#[test]
fn eax_counts_elements() {
    let s = eax_sizes(&[0u16; 4], &[0u8; 4], &[0u8; 16], &[0u8; 3], &[0u8; 16]).expect("sizes");
    assert_eq!((s.data, s.nonce, s.auth, s.tag), (4, 16, 3, 16));
    let r = eax_sizes(&[0u8; 8], &[0u16; 4], &[0u8; 16], &[0u8; 3], &[0u8; 16]);
    assert_eq!(r.err(), Some(BAD_FUNC_ARG));
}

#[test]
fn eax_refuses_data_without_bytes() {
    let r = eax_sizes(&[(); 16], &[0u8; 16], &[0u8; 16], &[0u8; 3], &[0u8; 16]);
    assert_eq!(r.err(), Some(BAD_FUNC_ARG));
    let r = eax_sizes(&[0u8; 16], &[(); 16], &[0u8; 16], &[0u8; 3], &[0u8; 16]);
    assert_eq!(r.err(), Some(BAD_FUNC_ARG));
    let empty: [(); 0] = [];
    let s = eax_sizes(&empty, &empty, &[0u8; 16], &[0u8; 3], &[0u8; 16]).expect("sizes");
    assert_eq!(s.data, 0);
}
