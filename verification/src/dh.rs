//! Constants and argument choices of wolfCrypt's Diffie-Hellman (DH)
//! functions.
use crate::buffers::{len_u32, wire_len};
use vstd::prelude::*;

verus! {

/// Named parameter set ffdhe2048.
pub const FFDHE_2048: i32 = 256;

// The larger named sets are, in this wrapper, the same value as ffdhe2048.
pub const FFDHE_3072: i32 = 256;
pub const FFDHE_4096: i32 = 256;
pub const FFDHE_6144: i32 = 256;
pub const FFDHE_8192: i32 = 256;

/// How the optional `q` parameter is described to the comparison with a named
/// parameter set.
pub struct NamedQ {
    /// 1 when no `q` is given, 0 when it is.
    pub no_q: i32,
    /// Size of `q`; 0 when no `q` is given.
    pub q_size: u32,
}

/// Describes the optional `q` parameter of a comparison with a named
/// parameter set.
pub fn named_q(q: Option<&[u8]>) -> (r: NamedQ)
    ensures
        r.no_q == (if q is Some { 0i32 } else { 1i32 }),
        r.q_size == match q {
            Some(s) => wire_len(s@.len() as int),
            None => 0u32,
        },
{
    match q {
        Some(s) => NamedQ { no_q: 0, q_size: len_u32(s.len()) },
        None => NamedQ { no_q: 1, q_size: 0 },
    }
}

} // verus!
