//! Key derivation: the TLS PRF, TLS 1.3 HKDF-Extract and HKDF-Expand-Label,
//! and the SSH KDF.
//!
//! `KDF` carries the hash-type constants of these functions and the decisions
//! that the wrapper takes before handing the inputs to wolfCrypt.
use crate::buffers::{len_u32, wire_len};
use crate::status::BUFFER_E;
use vstd::prelude::*;

verus! {

/// Key Derivation Function (KDF) functionality.
pub struct KDF {}

impl KDF {
    pub const PRF_HASH_NONE: i32 = 0;
    pub const PRF_HASH_MD5: i32 = 1;
    pub const PRF_HASH_SHA: i32 = 2;
    pub const PRF_HASH_SHA224: i32 = 3;
    pub const PRF_HASH_SHA256: i32 = 4;
    pub const PRF_HASH_SHA384: i32 = 5;
    pub const PRF_HASH_SHA512: i32 = 6;
    pub const PRF_HASH_RMD: i32 = 7;
    pub const PRF_HASH_BLAKE2B: i32 = 8;
    pub const PRF_HASH_SM3: i32 = 9;

    pub const TYPE_SHA256: i32 = 6;
    pub const TYPE_SHA384: i32 = 7;
    pub const TYPE_SHA512: i32 = 8;
}

/// What HKDF-Extract receives from the optional salt and key.
pub struct ExtractArgs {
    /// Size of the salt; 0 when no salt is given.
    pub salt_size: u32,
    /// Whether the input key material is the given key; when it is not, an
    /// all-zero buffer of size 0 stands in its place.
    pub key_used: bool,
    /// Size of the input key material.
    pub ikm_size: u32,
}

/// Whether the given key is used as input key material: it must be present
/// and not empty.
pub open spec fn key_used(key: Option<Seq<u8>>) -> bool {
    key matches Some(k) && k.len() > 0
}

/// The arguments of HKDF-Extract for the given salt and key.
pub open spec fn extract_args(salt: Option<Seq<u8>>, key: Option<Seq<u8>>) -> ExtractArgs {
    ExtractArgs {
        salt_size: match salt {
            Some(s) => wire_len(s.len() as int),
            None => 0,
        },
        key_used: key_used(key),
        ikm_size: match key {
            Some(k) => if k.len() > 0 {
                wire_len(k.len() as int)
            } else {
                0
            },
            None => 0,
        },
    }
}

/// The view of an optional byte slice.
pub open spec fn opt_view(x: Option<&[u8]>) -> Option<Seq<u8>> {
    match x {
        Some(s) => Some(s@),
        None => None,
    }
}

/// Decision before HKDF-Extract: the lookup of the HMAC size of the hash type
/// must have succeeded (else its error is handed back), and the output buffer
/// must have exactly that size (else `BUFFER_E`).
pub open spec fn extract_result(
    salt: Option<Seq<u8>>,
    key: Option<Seq<u8>>,
    out_len: usize,
    hmac_size: Result<usize, i32>,
) -> Result<ExtractArgs, i32> {
    match hmac_size {
        Err(e) => Err(e),
        Ok(n) => if out_len != n {
            Err(BUFFER_E)
        } else {
            Ok(extract_args(salt, key))
        },
    }
}

impl KDF {
    /// Arguments of a TLS 1.3 HKDF-Extract whose output buffer holds
    /// `out_len` bytes, given the HMAC size that wolfCrypt reported for the
    /// hash type (or the error of that lookup).
    pub fn tls13_hkdf_extract_args(
        salt: Option<&[u8]>,
        key: Option<&[u8]>,
        out_len: usize,
        hmac_size: Result<usize, i32>,
    ) -> (r: Result<ExtractArgs, i32>)
        ensures
            r == extract_result(opt_view(salt), opt_view(key), out_len, hmac_size),
            r is Ok <==> hmac_size == Ok::<usize, i32>(out_len),
            r is Ok ==> (salt matches Some(sl) ==> r->Ok_0.salt_size == wire_len(sl@.len() as int)),
            r is Ok ==> (salt is None ==> r->Ok_0.salt_size == 0),
            r is Ok ==> (r->Ok_0.key_used <==> (key matches Some(k) && k@.len() > 0)),
            r is Ok ==> (key matches Some(k) ==> (k@.len() > 0 ==> r->Ok_0.ikm_size == wire_len(
                k@.len() as int,
            ))),
            r is Ok ==> (!(key matches Some(k) && k@.len() > 0) ==> r->Ok_0.ikm_size == 0),
            r is Err ==> (hmac_size matches Err(e) ==> r->Err_0 == e),
            r is Err ==> (hmac_size is Ok ==> r->Err_0 == BUFFER_E),
    {
        let mut salt_size = 0u32;
        if let Some(salt) = salt {
            salt_size = len_u32(salt.len());
        }
        let mut key_used = false;
        let mut ikm_size = 0u32;
        if let Some(key) = key {
            if key.len() > 0 {
                key_used = true;
                ikm_size = len_u32(key.len());
            }
        }
        let n = match hmac_size {
            Ok(n) => n,
            Err(e) => {
                return Err(e);
            },
        };
        if out_len != n {
            return Err(BUFFER_E);
        }
        Ok(ExtractArgs { salt_size, key_used, ikm_size })
    }

    /// The hash type as the SSH KDF receives it: the `i32` converted to a
    /// byte, keeping its low 8 bits.
    pub fn ssh_hash_type(typ: i32) -> (r: u8)
        ensures
            r == typ as u8,
    {
        typ as u8
    }
}

/// Law of HKDF-Extract: when the output buffer has the HMAC size, a given
/// salt is always handed on whole (as its 32-bit length), whatever the key,
/// and an absent salt is handed on as size 0.
pub proof fn lemma_extract_keeps_salt(
    salt: Option<Seq<u8>>,
    key: Option<Seq<u8>>,
    out_len: usize,
)
    ensures
        extract_result(salt, key, out_len, Ok(out_len)) matches Ok(a) && a.salt_size == match salt {
            Some(s) => wire_len(s.len() as int),
            None => 0u32,
        },
{
}

/// Law of HKDF-Extract: the salt handed on does not depend on the key; two
/// extractions with the same salt and different keys (absent, empty or not)
/// pass the same salt size.
pub proof fn lemma_extract_salt_independent_of_key(
    salt: Option<Seq<u8>>,
    key1: Option<Seq<u8>>,
    key2: Option<Seq<u8>>,
    out_len: usize,
    hmac_size: Result<usize, i32>,
)
    ensures
        extract_result(salt, key1, out_len, hmac_size) is Ok <==> extract_result(
            salt,
            key2,
            out_len,
            hmac_size,
        ) is Ok,
        extract_result(salt, key1, out_len, hmac_size) matches Ok(a1) ==> (extract_result(
            salt,
            key2,
            out_len,
            hmac_size,
        ) matches Ok(a2) && a1.salt_size == a2.salt_size),
{
}

/// Law of HKDF-Extract: the key is used as input key material exactly when it
/// is present and not empty, and then whole; otherwise the material is empty.
pub proof fn lemma_extract_key_material(
    salt: Option<Seq<u8>>,
    key: Option<Seq<u8>>,
    out_len: usize,
)
    ensures
        extract_result(salt, key, out_len, Ok(out_len)) matches Ok(a) && (a.key_used <==> (
        key matches Some(k) && k.len() > 0)) && a.ikm_size == match key {
            Some(k) => wire_len(k.len() as int),
            None => 0u32,
        },
{
    match key {
        Some(k) => {
            if k.len() == 0 {
                assert(wire_len(0) == 0);
            }
        },
        None => {},
    }
}

} // verus!
