//! Buffer sizes as wolfCrypt receives them.
//!
//! wolfCrypt takes sizes as 32-bit `word32` values.  The wrapper converts a
//! Rust length with `as u32`, which keeps the low 32 bits, and for generic
//! slices it measures the data in bytes (`len * size_of::<T>()`) before the
//! conversion.  The spec functions here say what number reaches wolfCrypt.
use crate::status::BAD_FUNC_ARG;
use vstd::layout::size_of;
use vstd::prelude::*;

verus! {

/// The 32-bit value that a length becomes when it is converted with `as u32`:
/// its low 32 bits.
pub open spec fn wire_len(n: int) -> u32 {
    (n % 0x1_0000_0000int) as u32
}

/// Number of bytes that a sequence of `len` items of type `T` occupies.
pub open spec fn byte_len<T>(len: int) -> int {
    len * size_of::<T>()
}

/// The 32-bit byte size of a slice of `T` as wolfCrypt receives it.
pub open spec fn wire_bytes<T>(s: Seq<T>) -> u32 {
    wire_len(byte_len::<T>(s.len() as int))
}

/// Whether a slice of `T` can be measured in bytes without overflowing `usize`
/// (always so for a slice that exists, whose byte size is at most
/// `isize::MAX`).
pub open spec fn measurable<T>(len: int) -> bool {
    byte_len::<T>(len) <= usize::MAX
}

/// Whether a size handed to wolfCrypt stays within the bytes of a slice, so
/// that wolfCrypt reads or writes nothing outside it.
pub open spec fn within<T>(size: u32, s: Seq<T>) -> bool {
    size <= byte_len::<T>(s.len() as int)
}

/// Size check of a call that reads `din` and writes as many bytes to `dout`.
pub open spec fn matching_result(in_size: u32, out_size: u32) -> Result<u32, i32> {
    if in_size != out_size {
        Err(BAD_FUNC_ARG)
    } else {
        Ok(in_size)
    }
}

/// Converts a length to the 32-bit size that wolfCrypt receives.
pub fn len_u32(n: usize) -> (r: u32)
    ensures
        r == wire_len(n as int),
        r <= n,
        n <= u32::MAX ==> r == n,
{
    let r = n as u32;
    let w: u64 = n as u64;
    assert(r == (w % 0x1_0000_0000u64) as u32) by (bit_vector)
        requires
            r == n as u32,
            w == n as u64,
    ;
    r
}

/// Size in bytes of a slice of `T`, converted to the 32-bit size that
/// wolfCrypt receives.
pub fn byte_size<T>(s: &[T]) -> (r: u32)
    requires
        measurable::<T>(s@.len() as int),
    ensures
        r == wire_bytes::<T>(s@),
        within::<T>(r, s@),
{
    proof {
        lemma_wire_bytes_within(s@);
    }
    let n = s.len() * core::mem::size_of::<T>();
    len_u32(n)
}

/// The byte count of a call that transforms `din` into `dout`: the two byte
/// sizes must agree after the conversion to 32 bits, and otherwise the call is
/// refused with `BAD_FUNC_ARG` before it reaches wolfCrypt.
pub fn matching_size<I, O>(din: &[I], dout: &[O]) -> (r: Result<u32, i32>)
    requires
        measurable::<I>(din@.len() as int),
        measurable::<O>(dout@.len() as int),
    ensures
        r == matching_result(wire_bytes::<I>(din@), wire_bytes::<O>(dout@)),
        r is Ok <==> wire_bytes::<I>(din@) == wire_bytes::<O>(dout@),
        r is Ok ==> r->Ok_0 == wire_bytes::<I>(din@),
        r is Err ==> r->Err_0 == BAD_FUNC_ARG,
        r is Ok ==> within::<I>(r->Ok_0, din@) && within::<O>(r->Ok_0, dout@),
{
    proof {
        lemma_wire_bytes_within(din@);
        lemma_wire_bytes_within(dout@);
    }
    let in_size = byte_size(din);
    let out_size = byte_size(dout);
    if in_size != out_size {
        return Err(BAD_FUNC_ARG);
    }
    Ok(in_size)
}

/// A length below 2^32 reaches wolfCrypt unchanged.
pub proof fn lemma_wire_len_small(n: int)
    requires
        0 <= n < 0x1_0000_0000int,
    ensures
        wire_len(n) == n,
{
}

/// The 32-bit value of a length never exceeds the length.
pub proof fn lemma_wire_len_le(n: int)
    requires
        0 <= n,
    ensures
        wire_len(n) <= n,
{
}

/// The 32-bit byte size of a slice stays within its bytes.
pub proof fn lemma_wire_bytes_within<T>(s: Seq<T>)
    ensures
        within::<T>(wire_bytes::<T>(s), s),
{
    vstd::arithmetic::mul::lemma_mul_nonnegative(s.len() as int, size_of::<T>() as int);
    lemma_wire_len_le(byte_len::<T>(s.len() as int));
}

/// A pair of buffers that a transform accepts in one direction is accepted,
/// swapped, in the other, with the same byte count: the output of an
/// encryption can always be handed back to the matching decryption together
/// with a buffer the size of the original input.
pub proof fn lemma_matching_swap<I, O>(din: Seq<I>, dout: Seq<O>)
    ensures
        matching_result(wire_bytes::<I>(din), wire_bytes::<O>(dout)) is Ok
            <==> matching_result(wire_bytes::<O>(dout), wire_bytes::<I>(din)) is Ok,
        matching_result(wire_bytes::<I>(din), wire_bytes::<O>(dout)) is Ok
            ==> matching_result(wire_bytes::<I>(din), wire_bytes::<O>(dout))
            == matching_result(wire_bytes::<O>(dout), wire_bytes::<I>(din)),
{
}

} // verus!
