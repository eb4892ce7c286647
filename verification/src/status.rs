//! Return-code conventions of wolfCrypt and how the wrapper reports them.
//!
//! Every wolfCrypt call answers with an `int`.  Depending on the function,
//! zero means success and anything else is an error code, or a negative value
//! is an error code and anything else is a byte count.  The functions here
//! turn such answers into the `Result` values that the wrapper hands back, so
//! that each convention is written, and proved, once.
use vstd::prelude::*;

verus! {

/// wolfCrypt error code: bad function argument provided.
pub const BAD_FUNC_ARG: i32 = -173;

/// wolfCrypt error code: output buffer too small or input too large.
pub const BUFFER_E: i32 = -132;

/// wolfCrypt error code: out of memory.  Also reported when wolfCrypt hands
/// back a null pointer in place of a newly allocated object.
pub const MEMORY_E: i32 = -125;

/// Meaning of a return code for which zero is success.
pub open spec fn rc_result(rc: i32) -> Result<(), i32> {
    if rc == 0 {
        Ok(())
    } else {
        Err(rc)
    }
}

/// Meaning of a return code that is a byte count when it is not negative.
pub open spec fn count_result(rc: i32) -> Result<usize, i32> {
    if rc < 0 {
        Err(rc)
    } else {
        Ok(rc as usize)
    }
}

/// Meaning of a return code that is a size (kept as `i32`) when it is not
/// negative.
pub open spec fn nonnegative_result(rc: i32) -> Result<i32, i32> {
    if rc < 0 {
        Err(rc)
    } else {
        Ok(rc)
    }
}

/// Meaning of a call that reports success by zero and writes the number of
/// bytes it produced through a length parameter.
pub open spec fn written_result(rc: i32, written: u32) -> Result<usize, i32> {
    if rc != 0 {
        Err(rc)
    } else {
        Ok(written as usize)
    }
}

/// Meaning of a call that reports failure by a negative code and writes the
/// number of bytes it produced through a length parameter.
pub open spec fn written_unless_negative_result(rc: i32, written: u32) -> Result<usize, i32> {
    if rc < 0 {
        Err(rc)
    } else {
        Ok(written as usize)
    }
}

/// Meaning of a verification call: the return code says whether the check
/// could be run, and `res` says whether it passed.
pub open spec fn verdict_result(rc: i32, res: i32) -> Result<bool, i32> {
    if rc != 0 {
        Err(rc)
    } else {
        Ok(res != 0)
    }
}

/// Zero is success, any other value is handed back as the error.
pub fn check_rc(rc: i32) -> (r: Result<(), i32>)
    ensures
        r == rc_result(rc),
        r is Ok <==> rc == 0,
        r is Err ==> r->Err_0 != 0,
{
    if rc != 0 {
        return Err(rc);
    }
    Ok(())
}

/// A negative value is the error; any other value is a byte count.
pub fn check_count(rc: i32) -> (r: Result<usize, i32>)
    ensures
        r == count_result(rc),
        r is Ok <==> rc >= 0,
        r is Ok ==> r->Ok_0 == rc,
        r is Err ==> r->Err_0 < 0,
{
    if rc < 0 {
        return Err(rc);
    }
    Ok(rc as usize)
}

/// A negative value is the error; any other value is kept as it is.
pub fn check_nonnegative(rc: i32) -> (r: Result<i32, i32>)
    ensures
        r == nonnegative_result(rc),
        r is Ok <==> rc >= 0,
{
    if rc < 0 {
        return Err(rc);
    }
    Ok(rc)
}

/// Zero is success, and then `written` is the number of bytes produced; any
/// other value is handed back as the error.
pub fn check_written(rc: i32, written: u32) -> (r: Result<usize, i32>)
    ensures
        r == written_result(rc, written),
        r is Ok <==> rc == 0,
        r is Ok ==> r->Ok_0 == written,
{
    if rc != 0 {
        return Err(rc);
    }
    Ok(written as usize)
}

/// A negative value is the error; otherwise `written` is the number of bytes
/// produced.
pub fn check_written_unless_negative(rc: i32, written: u32) -> (r: Result<usize, i32>)
    ensures
        r == written_unless_negative_result(rc, written),
        r is Ok <==> rc >= 0,
        r is Ok ==> r->Ok_0 == written,
{
    if rc < 0 {
        return Err(rc);
    }
    Ok(written as usize)
}

/// Zero is success, and then `res` tells whether the checked value is valid
/// (any nonzero `res`); any other return code is handed back as the error.
pub fn check_verdict(rc: i32, res: i32) -> (r: Result<bool, i32>)
    ensures
        r == verdict_result(rc, res),
        r is Ok <==> rc == 0,
        r == Ok::<bool, i32>(true) <==> (rc == 0 && res != 0),
{
    if rc != 0 {
        return Err(rc);
    }
    Ok(res != 0)
}

/// An object that wolfCrypt allocates is reported as `MEMORY_E` when the
/// allocation handed back nothing.
pub fn check_allocated(allocated: bool) -> (r: Result<(), i32>)
    ensures
        r is Ok <==> allocated,
        r is Err ==> r == Err::<(), i32>(MEMORY_E),
        r is Err ==> r->Err_0 < 0,
{
    if !allocated {
        return Err(MEMORY_E);
    }
    Ok(())
}

/// A comparison call answers nonzero when the compared values match.
pub fn is_match(rc: i32) -> (r: bool)
    ensures
        r <==> rc != 0,
{
    rc != 0
}

} // verus!
