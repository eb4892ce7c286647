use wolfssl::buffers::{byte_size, len_u32, matching_size};
use wolfssl::status::BAD_FUNC_ARG;

#[test]
fn short_lengths_pass_unchanged() {
    assert_eq!(len_u32(0), 0);
    assert_eq!(len_u32(16), 16);
    assert_eq!(len_u32(65536), 65536);
}

#[test]
fn long_lengths_keep_low_bits() {
    assert_eq!(len_u32(usize::MAX), u32::MAX);
    assert_eq!(len_u32(usize::MAX - 15), 0xFFFF_FFF0);
}

#[test]
fn byte_size_counts_bytes() {
    assert_eq!(byte_size(&[0u8; 16]), 16);
    assert_eq!(byte_size(&[0u32; 4]), 16);
    assert_eq!(byte_size(&[0u64; 3]), 24);
    assert_eq!(byte_size::<u16>(&[]), 0);
    assert_eq!(byte_size(&[(); 5]), 0);
}

#[test]
fn matching_size_accepts_equal_bytes() {
    assert_eq!(matching_size(&[0u8; 16], &[0u8; 16]), Ok(16));
    assert_eq!(matching_size(&[0u8; 16], &[0u32; 4]), Ok(16));
    assert_eq!(matching_size(&[0u64; 2], &[0u16; 8]), Ok(16));
}

#[test]
fn matching_size_refuses_unequal_bytes() {
    assert_eq!(matching_size(&[0u8; 16], &[0u8; 15]), Err(BAD_FUNC_ARG));
    assert_eq!(matching_size(&[0u8; 16], &[0u32; 16]), Err(-173));
}

#[test]
fn matching_size_swapped_agrees() {
    let a = [1u8; 32];
    let b = [0u16; 16];
    assert_eq!(matching_size(&a, &b), matching_size(&b, &a));
    let c = [0u16; 15];
    assert_eq!(matching_size(&a, &c), Err(BAD_FUNC_ARG));
    assert_eq!(matching_size(&c, &a), Err(BAD_FUNC_ARG));
}
