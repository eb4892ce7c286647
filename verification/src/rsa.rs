//! Constants of wolfCrypt's RSA functions: hash types and mask generation
//! functions.
use vstd::prelude::*;

verus! {

pub const HASH_TYPE_NONE: u32 = 0;
pub const HASH_TYPE_MD2: u32 = 1;
pub const HASH_TYPE_MD4: u32 = 2;
pub const HASH_TYPE_MD5: u32 = 3;
pub const HASH_TYPE_SHA: u32 = 4;
pub const HASH_TYPE_SHA224: u32 = 5;
pub const HASH_TYPE_SHA256: u32 = 6;
pub const HASH_TYPE_SHA384: u32 = 7;
pub const HASH_TYPE_SHA512: u32 = 8;
pub const HASH_TYPE_MD5_SHA: u32 = 9;
pub const HASH_TYPE_SHA3_224: u32 = 10;
pub const HASH_TYPE_SHA3_256: u32 = 11;
pub const HASH_TYPE_SHA3_384: u32 = 12;
pub const HASH_TYPE_SHA3_512: u32 = 13;
pub const HASH_TYPE_BLAKE2B: u32 = 14;
pub const HASH_TYPE_BLAKE2S: u32 = 15;
pub const HASH_TYPE_SHA512_224: u32 = 16;
pub const HASH_TYPE_SHA512_256: u32 = 17;
pub const HASH_TYPE_SHAKE128: u32 = 18;
pub const HASH_TYPE_SHAKE256: u32 = 19;

pub const MGF1NONE: i32 = 0;
pub const MGF1SHA1: i32 = 26;
pub const MGF1SHA224: i32 = 4;
pub const MGF1SHA256: i32 = 1;
pub const MGF1SHA384: i32 = 2;
pub const MGF1SHA512: i32 = 3;
pub const MGF1SHA512_224: i32 = 5;
pub const MGF1SHA512_256: i32 = 6;

} // verus!
