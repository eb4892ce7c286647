//! Constants and argument choices of wolfCrypt's elliptic-curve (ECC)
//! functions.
//!
//! The curve identifiers are those of wolfCrypt's `ecc_curve_ids`, for a
//! build with every curve enabled.
use crate::status::BAD_FUNC_ARG;
use vstd::prelude::*;

verus! {

pub const CURVE_INVALID: i32 = -1;
pub const CURVE_DEF: i32 = 0;
pub const SECP192R1: i32 = 1;
pub const PRIME192V2: i32 = 2;
pub const PRIME192V3: i32 = 3;
pub const PRIME239V1: i32 = 4;
pub const PRIME239V2: i32 = 5;
pub const PRIME239V3: i32 = 6;
pub const SECP256R1: i32 = 7;
pub const SECP112R1: i32 = 8;
pub const SECP112R2: i32 = 9;
pub const SECP128R1: i32 = 10;
pub const SECP128R2: i32 = 11;
pub const SECP160R1: i32 = 12;
pub const SECP160R2: i32 = 13;
pub const SECP224R1: i32 = 14;
pub const SECP384R1: i32 = 15;
pub const SECP521R1: i32 = 16;
pub const SECP160K1: i32 = 17;
pub const SECP192K1: i32 = 18;
pub const SECP224K1: i32 = 19;
pub const SECP256K1: i32 = 20;
pub const BRAINPOOLP160R1: i32 = 21;
pub const BRAINPOOLP192R1: i32 = 22;
pub const BRAINPOOLP224R1: i32 = 23;
pub const BRAINPOOLP256R1: i32 = 24;
pub const BRAINPOOLP320R1: i32 = 25;
pub const BRAINPOOLP384R1: i32 = 26;
pub const BRAINPOOLP512R1: i32 = 27;
pub const SM2P256V1: i32 = 28;
pub const X25519: i32 = 29;
pub const X448: i32 = 30;
pub const SAKKE_1: i32 = 31;
pub const CURVE_CUSTOM: i32 = 32;
pub const CURVE_MAX: i32 = 33;

pub const FLAG_NONE: i32 = 0;
pub const FLAG_COFACTOR: i32 = 1;
pub const FLAG_DEC_SIGN: i32 = 2;

/// Encoding code: components as ASCII hexadecimal strings.
pub const TYPE_HEX_STR: i32 = 1;

/// Encoding code: components as binary unsigned integers.
pub const TYPE_UNSIGNED_BIN: i32 = 2;

/// The flag that asks for the compressed form of a point or public key.
pub const COMPRESSED: i32 = 1;

/// The encoding code of a key export: hexadecimal strings when `hex` holds,
/// binary unsigned integers otherwise.
pub open spec fn encoding_code(hex: bool) -> i32 {
    if hex {
        TYPE_HEX_STR
    } else {
        TYPE_UNSIGNED_BIN
    }
}

/// Chooses the encoding code of a key export.
pub fn export_encoding(hex: bool) -> (r: i32)
    ensures
        r == encoding_code(hex),
{
    if hex {
        TYPE_HEX_STR
    } else {
        TYPE_UNSIGNED_BIN
    }
}

/// Whether a byte string holds its terminating NUL within its bytes, so that
/// wolfCrypt, reading it as a C string, stays inside it.
pub open spec fn nul_terminated(s: Seq<u8>) -> bool {
    exists|i: int| 0 <= i < s.len() && s[i] == 0
}

/// Checks a component given as a NUL-terminated ASCII string; one with no NUL
/// byte is refused with `BAD_FUNC_ARG`.
pub fn check_c_string(s: &[u8]) -> (r: Result<(), i32>)
    ensures
        r is Ok <==> nul_terminated(s@),
        r is Ok <==> exists|i: int| 0 <= i < s@.len() && s@[i] == 0,
        r is Err ==> r == Err::<(), i32>(BAD_FUNC_ARG),
{
    let mut i: usize = 0;
    while i < s.len()
        invariant
            i <= s@.len(),
            forall|j: int| 0 <= j < i ==> s@[j] != 0,
        decreases s@.len() - i,
    {
        if s[i] == 0 {
            return Ok(());
        }
        i = i + 1;
    }
    Err(BAD_FUNC_ARG)
}

/// Decision before importing key components in binary unsigned form, given
/// the curve size that wolfCrypt reported for the curve (or the error of that
/// lookup): wolfCrypt reads exactly that many bytes of each component, so a
/// shorter component is refused with `BAD_FUNC_ARG`.
pub open spec fn unsigned_result(qx: int, qy: int, d: int, curve_size: Result<i32, i32>) -> Result<
    (),
    i32,
> {
    match curve_size {
        Err(e) => Err(e),
        Ok(n) => if qx < n || qy < n || d < n {
            Err(BAD_FUNC_ARG)
        } else {
            Ok(())
        },
    }
}

/// Checks the components of a key import in binary unsigned form against the
/// curve size.
pub fn check_unsigned_components(qx: &[u8], qy: &[u8], d: &[u8], curve_size: Result<i32, i32>) -> (r:
    Result<(), i32>)
    ensures
        r == unsigned_result(qx@.len() as int, qy@.len() as int, d@.len() as int, curve_size),
        r is Ok ==> (curve_size matches Ok(n) && n <= qx@.len() && n <= qy@.len() && n <= d@.len()),
{
    let n = match curve_size {
        Ok(n) => n,
        Err(e) => {
            return Err(e);
        },
    };
    if n > 0 {
        let size = n as usize;
        if qx.len() < size || qy.len() < size || d.len() < size {
            return Err(BAD_FUNC_ARG);
        }
    }
    Ok(())
}

/// Law of the C-string check: a string is accepted as soon as it holds a NUL
/// byte anywhere, however long the text before it (a 97-byte P-384
/// coordinate ending in its NUL included).
pub proof fn lemma_nul_anywhere_accepted(s: Seq<u8>, i: int)
    requires
        0 <= i < s.len(),
        s[i] == 0,
    ensures
        nul_terminated(s),
{
}

/// Law of the C-string check: a string with no NUL byte is refused, since
/// wolfCrypt would read past its end.
pub proof fn lemma_no_nul_refused(s: Seq<u8>)
    requires
        forall|i: int| 0 <= i < s.len() ==> s[i] != 0,
    ensures
        !nul_terminated(s),
{
}

} // verus!
