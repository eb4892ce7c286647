//! Constants and argument choices of wolfCrypt's Ed25519 signatures.
use crate::status::BAD_FUNC_ARG;
use vstd::prelude::*;

verus! {

/// Plain Ed25519 (wolfCrypt's `Ed25519`, which is -1, as a byte).
pub const ED25519: u8 = 255;

/// Ed25519 with a context.
pub const ED25519CTX: u8 = 0;

/// Ed25519 of a pre-hashed message, with a context.
pub const ED25519PH: u8 = 1;

/// Size in bytes of an Ed25519 private key.
pub const ED25519_KEY_SIZE: i32 = 32;

/// Longest signing context, in bytes, that Ed25519 allows: the context is
/// signed together with its one-byte length.
pub const MAX_CONTEXT_SIZE: usize = 255;

/// The context size handed to wolfCrypt, or `BAD_FUNC_ARG` for a context too
/// long to be signed whole.
pub open spec fn context_result(len: int) -> Result<u8, i32> {
    if len <= MAX_CONTEXT_SIZE {
        Ok(len as u8)
    } else {
        Err(BAD_FUNC_ARG)
    }
}

/// Size of a signing context as wolfCrypt receives it; a context longer than
/// 255 bytes is refused, so that the whole context is part of the data signed.
pub fn checked_context_size(context: &[u8]) -> (r: Result<u8, i32>)
    ensures
        r == context_result(context@.len() as int),
        r is Ok <==> context@.len() <= 255,
        r is Ok ==> r->Ok_0 == context@.len(),
        r is Err ==> r->Err_0 == BAD_FUNC_ARG,
{
    if context.len() > MAX_CONTEXT_SIZE {
        return Err(BAD_FUNC_ARG);
    }
    Ok(context.len() as u8)
}

/// Size of an optional signing context: 0 when there is none, and as
/// `checked_context_size` otherwise.
pub fn optional_context_size(context: Option<&[u8]>) -> (r: Result<u8, i32>)
    ensures
        r == match context {
            Some(c) => context_result(c@.len() as int),
            None => Ok::<u8, i32>(0u8),
        },
{
    match context {
        Some(c) => checked_context_size(c),
        None => Ok(0),
    }
}

} // verus!
