//! Argument preparation for wolfCrypt's AES modes (CBC, CCM, CFB, CTR, EAX,
//! ECB, GCM, OFB, XTS and their streaming forms).
//!
//! Each mode hands wolfCrypt a key, perhaps an IV, and input and output
//! buffers.  Before a call, the wrapper refuses an IV of the wrong length and
//! output buffers whose size differs from the input; the functions here make
//! those decisions and compute the sizes that wolfCrypt receives.
use crate::buffers::{
    byte_len, byte_size, lemma_wire_bytes_within, lemma_wire_len_le, len_u32, measurable, wire_bytes,
    wire_len, within,
};
use crate::status::BAD_FUNC_ARG;
use vstd::layout::size_of;
use vstd::prelude::*;

verus! {

/// AES block size in bytes; the IV of CBC, CFB, CTR and OFB has this length.
pub const AES_BLOCK_SIZE: u32 = 16;

/// Direction code that keys an AES object for encryption.
pub const AES_ENCRYPTION: i32 = 0;

/// Direction code that keys an AES object for decryption.
pub const AES_DECRYPTION: i32 = 1;

/// The direction code handed to wolfCrypt when a key is set.
pub open spec fn direction_code(encrypt: bool) -> i32 {
    if encrypt {
        AES_ENCRYPTION
    } else {
        AES_DECRYPTION
    }
}

/// The direction code that keys an AES object for encryption (`true`) or
/// decryption (`false`).
pub fn direction(encrypt: bool) -> (r: i32)
    ensures
        r == direction_code(encrypt),
{
    if encrypt {
        AES_ENCRYPTION
    } else {
        AES_DECRYPTION
    }
}

/// Whether an IV is accepted by the modes that need one block of IV: its
/// length, converted to 32 bits, must be the block size.
pub open spec fn iv_accepted(iv: Seq<u8>) -> bool {
    wire_len(iv.len() as int) == AES_BLOCK_SIZE
}

/// Checks the IV of CBC, CFB, CTR and OFB before the key is set; a wrong
/// length is refused with `BAD_FUNC_ARG`.
pub fn check_iv(iv: &[u8]) -> (r: Result<(), i32>)
    ensures
        r is Ok <==> iv_accepted(iv@),
        r is Err ==> r == Err::<(), i32>(BAD_FUNC_ARG),
{
    if len_u32(iv.len()) != AES_BLOCK_SIZE {
        return Err(BAD_FUNC_ARG);
    }
    Ok(())
}

/// The sizes handed to an authenticated-encryption call: the data, the nonce
/// (or IV), the additional authenticated data and the tag.
pub struct AeadSizes {
    pub data: u32,
    pub nonce: u32,
    pub auth: u32,
    pub tag: u32,
}

/// Sizes of a CCM call: each buffer is measured in bytes of its own element
/// type.
pub open spec fn ccm_result<I, O, N, A>(
    din: Seq<I>,
    dout: Seq<O>,
    nonce: Seq<N>,
    auth: Seq<A>,
    auth_tag: Seq<A>,
) -> Result<AeadSizes, i32> {
    if wire_bytes::<I>(din) != wire_bytes::<O>(dout) {
        Err(BAD_FUNC_ARG)
    } else {
        Ok(
            AeadSizes {
                data: wire_bytes::<I>(din),
                nonce: wire_bytes::<N>(nonce),
                auth: wire_bytes::<A>(auth),
                tag: wire_bytes::<A>(auth_tag),
            },
        )
    }
}

/// Whether every size of an AEAD call stays within the bytes of its buffer.
pub open spec fn aead_within<I, O, N, A>(
    sizes: AeadSizes,
    din: Seq<I>,
    dout: Seq<O>,
    nonce: Seq<N>,
    auth: Seq<A>,
    auth_tag: Seq<A>,
) -> bool {
    &&& within::<I>(sizes.data, din)
    &&& within::<O>(sizes.data, dout)
    &&& within::<N>(sizes.nonce, nonce)
    &&& within::<A>(sizes.auth, auth)
    &&& within::<A>(sizes.tag, auth_tag)
}

/// Sizes of a CCM encryption or decryption, or `BAD_FUNC_ARG` when the output
/// size differs from the input size.
pub fn ccm_sizes<I, O, N, A>(din: &[I], dout: &[O], nonce: &[N], auth: &[A], auth_tag: &[A]) -> (r:
    Result<AeadSizes, i32>)
    requires
        measurable::<I>(din@.len() as int),
        measurable::<O>(dout@.len() as int),
        measurable::<N>(nonce@.len() as int),
        measurable::<A>(auth@.len() as int),
        measurable::<A>(auth_tag@.len() as int),
    ensures
        r == ccm_result(din@, dout@, nonce@, auth@, auth_tag@),
        r is Ok ==> aead_within(r->Ok_0, din@, dout@, nonce@, auth@, auth_tag@),
        r is Ok <==> wire_bytes::<I>(din@) == wire_bytes::<O>(dout@),
        r is Err ==> r->Err_0 == BAD_FUNC_ARG,
        r is Ok ==> r->Ok_0.data == wire_bytes::<I>(din@) && r->Ok_0.nonce == wire_bytes::<N>(
            nonce@,
        ) && r->Ok_0.auth == wire_bytes::<A>(auth@) && r->Ok_0.tag == wire_bytes::<A>(auth_tag@),
{
    proof {
        lemma_wire_bytes_within(din@);
        lemma_wire_bytes_within(dout@);
        lemma_wire_bytes_within(nonce@);
        lemma_wire_bytes_within(auth@);
        lemma_wire_bytes_within(auth_tag@);
    }
    let in_size = byte_size(din);
    let out_size = byte_size(dout);
    let nonce_size = byte_size(nonce);
    let auth_size = byte_size(auth);
    let auth_tag_size = byte_size(auth_tag);
    if in_size != out_size {
        return Err(BAD_FUNC_ARG);
    }
    Ok(AeadSizes { data: in_size, nonce: nonce_size, auth: auth_size, tag: auth_tag_size })
}

/// Sizes of a GCM call: the data in bytes, and the byte lengths of the IV, the
/// additional data and the tag.
pub open spec fn gcm_result<I, O>(
    din: Seq<I>,
    dout: Seq<O>,
    iv: Seq<u8>,
    auth: Seq<u8>,
    auth_tag: Seq<u8>,
) -> Result<AeadSizes, i32> {
    if wire_bytes::<I>(din) != wire_bytes::<O>(dout) {
        Err(BAD_FUNC_ARG)
    } else {
        Ok(
            AeadSizes {
                data: wire_bytes::<I>(din),
                nonce: wire_len(iv.len() as int),
                auth: wire_len(auth.len() as int),
                tag: wire_len(auth_tag.len() as int),
            },
        )
    }
}

/// Whether every size of a call on data and byte buffers stays within its
/// buffer.
pub open spec fn bytes_within<I, O>(
    sizes: AeadSizes,
    din: Seq<I>,
    dout: Seq<O>,
    nonce: Seq<u8>,
    auth: Seq<u8>,
    auth_tag: Seq<u8>,
) -> bool {
    &&& within::<I>(sizes.data, din)
    &&& within::<O>(sizes.data, dout)
    &&& sizes.nonce <= nonce.len()
    &&& sizes.auth <= auth.len()
    &&& sizes.tag <= auth_tag.len()
}

/// Sizes of a GCM encryption or decryption, or `BAD_FUNC_ARG` when the output
/// size differs from the input size.
pub fn gcm_sizes<I, O>(din: &[I], dout: &[O], iv: &[u8], auth: &[u8], auth_tag: &[u8]) -> (r:
    Result<AeadSizes, i32>)
    requires
        measurable::<I>(din@.len() as int),
        measurable::<O>(dout@.len() as int),
    ensures
        r == gcm_result(din@, dout@, iv@, auth@, auth_tag@),
        r is Ok ==> bytes_within(r->Ok_0, din@, dout@, iv@, auth@, auth_tag@),
        r is Ok <==> wire_bytes::<I>(din@) == wire_bytes::<O>(dout@),
        r is Err ==> r->Err_0 == BAD_FUNC_ARG,
        r is Ok ==> r->Ok_0.data == wire_bytes::<I>(din@) && r->Ok_0.nonce == wire_len(
            iv@.len() as int,
        ) && r->Ok_0.auth == wire_len(auth@.len() as int) && r->Ok_0.tag == wire_len(
            auth_tag@.len() as int,
        ),
{
    proof {
        lemma_wire_bytes_within(din@);
        lemma_wire_bytes_within(dout@);
        lemma_wire_len_le(iv@.len() as int);
        lemma_wire_len_le(auth@.len() as int);
        lemma_wire_len_le(auth_tag@.len() as int);
    }
    let in_size = byte_size(din);
    let out_size = byte_size(dout);
    let iv_size = len_u32(iv.len());
    let auth_size = len_u32(auth.len());
    let auth_tag_size = len_u32(auth_tag.len());
    if in_size != out_size {
        return Err(BAD_FUNC_ARG);
    }
    Ok(AeadSizes { data: in_size, nonce: iv_size, auth: auth_size, tag: auth_tag_size })
}

/// Whether a slice of `T` has at least as many bytes as elements, so that a
/// size given as an element count stays within it (false only for a
/// non-empty slice of a zero-sized type).
pub open spec fn counts_within<T>(len: int) -> bool {
    len <= byte_len::<T>(len)
}

/// Sizes of an EAX call: here the data is measured by its number of elements,
/// and the nonce, additional data and tag by their byte lengths.  A data
/// buffer with fewer bytes than elements is refused, as are input and output
/// buffers of different lengths.
pub open spec fn eax_result<I, O>(
    din: Seq<I>,
    dout: Seq<O>,
    nonce: Seq<u8>,
    auth: Seq<u8>,
    auth_tag: Seq<u8>,
) -> Result<AeadSizes, i32> {
    if !counts_within::<I>(din.len() as int) || !counts_within::<O>(dout.len() as int) {
        Err(BAD_FUNC_ARG)
    } else if wire_len(din.len() as int) != wire_len(dout.len() as int) {
        Err(BAD_FUNC_ARG)
    } else {
        Ok(
            AeadSizes {
                data: wire_len(din.len() as int),
                nonce: wire_len(nonce.len() as int),
                auth: wire_len(auth.len() as int),
                tag: wire_len(auth_tag.len() as int),
            },
        )
    }
}

/// Sizes of a one-shot EAX encryption or decryption, or `BAD_FUNC_ARG` when a
/// data buffer has fewer bytes than elements or the output length differs
/// from the input length.
pub fn eax_sizes<I, O>(din: &[I], dout: &[O], nonce: &[u8], auth: &[u8], auth_tag: &[u8]) -> (r:
    Result<AeadSizes, i32>)
    requires
        measurable::<I>(din@.len() as int),
        measurable::<O>(dout@.len() as int),
    ensures
        r == eax_result(din@, dout@, nonce@, auth@, auth_tag@),
        r is Ok ==> bytes_within(r->Ok_0, din@, dout@, nonce@, auth@, auth_tag@),
        r is Ok <==> (din@.len() <= din@.len() * size_of::<I>() && dout@.len() <= dout@.len()
            * size_of::<O>() && wire_len(din@.len() as int) == wire_len(dout@.len() as int)),
        r is Err ==> r->Err_0 == BAD_FUNC_ARG,
        r is Ok ==> r->Ok_0.data == wire_len(din@.len() as int) && r->Ok_0.nonce == wire_len(
            nonce@.len() as int,
        ) && r->Ok_0.auth == wire_len(auth@.len() as int) && r->Ok_0.tag == wire_len(
            auth_tag@.len() as int,
        ),
{
    proof {
        lemma_wire_len_le(din@.len() as int);
        lemma_wire_len_le(dout@.len() as int);
        lemma_wire_len_le(nonce@.len() as int);
        lemma_wire_len_le(auth@.len() as int);
        lemma_wire_len_le(auth_tag@.len() as int);
    }
    let din_bytes = din.len() * core::mem::size_of::<I>();
    let dout_bytes = dout.len() * core::mem::size_of::<O>();
    if din.len() > din_bytes || dout.len() > dout_bytes {
        return Err(BAD_FUNC_ARG);
    }
    let nonce_size = len_u32(nonce.len());
    let auth_size = len_u32(auth.len());
    let auth_tag_size = len_u32(auth_tag.len());
    let in_size = len_u32(din.len());
    let out_size = len_u32(dout.len());
    if in_size != out_size {
        return Err(BAD_FUNC_ARG);
    }
    Ok(AeadSizes { data: in_size, nonce: nonce_size, auth: auth_size, tag: auth_tag_size })
}

/// Law of CCM: the call is refused only when the input and output data sizes
/// differ; any nonce, additional data and tag (of any size, an empty one or an
/// 8-byte tag included) are handed on, each measured in its own bytes.
pub proof fn lemma_ccm_refuses_only_mismatched_data<I, O, N, A>(
    din: Seq<I>,
    dout: Seq<O>,
    nonce: Seq<N>,
    auth: Seq<A>,
    auth_tag: Seq<A>,
)
    ensures
        ccm_result(din, dout, nonce, auth, auth_tag) is Ok <==> wire_bytes::<I>(din)
            == wire_bytes::<O>(dout),
        ccm_result(din, dout, nonce, auth, auth_tag) matches Ok(sz) ==> sz.data == wire_bytes::<I>(
            din,
        ) && sz.nonce == wire_bytes::<N>(nonce) && sz.auth == wire_bytes::<A>(auth) && sz.tag
            == wire_bytes::<A>(auth_tag),
        ccm_result(din, dout, nonce, auth, auth_tag) matches Err(e) ==> e == BAD_FUNC_ARG,
{
}

/// Law of GCM: the call is refused only when the input and output data sizes
/// differ; any IV, additional data (none at all included) and tag are handed
/// on with their byte lengths.
pub proof fn lemma_gcm_refuses_only_mismatched_data<I, O>(
    din: Seq<I>,
    dout: Seq<O>,
    iv: Seq<u8>,
    auth: Seq<u8>,
    auth_tag: Seq<u8>,
)
    ensures
        gcm_result(din, dout, iv, auth, auth_tag) is Ok <==> wire_bytes::<I>(din)
            == wire_bytes::<O>(dout),
        gcm_result(din, dout, iv, auth, auth_tag) matches Ok(sz) ==> sz.data == wire_bytes::<I>(din)
            && sz.nonce == wire_len(iv.len() as int) && sz.auth == wire_len(auth.len() as int)
            && sz.tag == wire_len(auth_tag.len() as int),
        gcm_result(din, dout, iv, auth, auth_tag) matches Err(e) ==> e == BAD_FUNC_ARG,
{
}

/// Law of EAX: the call is refused only when a data buffer has fewer bytes
/// than elements or the input and output lengths differ; any nonce,
/// associated data (none at all included) and tag are handed on with their
/// byte lengths.
pub proof fn lemma_eax_refuses_only_bad_data<I, O>(
    din: Seq<I>,
    dout: Seq<O>,
    nonce: Seq<u8>,
    auth: Seq<u8>,
    auth_tag: Seq<u8>,
)
    ensures
        eax_result(din, dout, nonce, auth, auth_tag) is Ok <==> (din.len() <= din.len()
            * size_of::<I>() && dout.len() <= dout.len() * size_of::<O>() && wire_len(
            din.len() as int,
        ) == wire_len(dout.len() as int)),
        eax_result(din, dout, nonce, auth, auth_tag) matches Ok(sz) ==> sz.data == wire_len(
            din.len() as int,
        ) && sz.nonce == wire_len(nonce.len() as int) && sz.auth == wire_len(auth.len() as int)
            && sz.tag == wire_len(auth_tag.len() as int),
{
}

/// Law of EAX on byte buffers: with one-byte elements the call is refused
/// only when the data lengths differ, whatever the associated data.
pub proof fn lemma_eax_bytes_refused_only_on_length(
    din: Seq<u8>,
    dout: Seq<u8>,
    nonce: Seq<u8>,
    auth: Seq<u8>,
    auth_tag: Seq<u8>,
)
    ensures
        eax_result(din, dout, nonce, auth, auth_tag) is Ok <==> wire_len(din.len() as int)
            == wire_len(dout.len() as int),
        eax_result(din, dout, nonce, auth, auth_tag) matches Ok(sz) ==> sz.auth == wire_len(
            auth.len() as int,
        ),
{
    broadcast use vstd::layout::layout_of_primitives;

}

} // verus!
