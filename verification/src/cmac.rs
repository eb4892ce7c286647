//! Constants of wolfCrypt's cipher-based MAC (CMAC).
use vstd::prelude::*;

verus! {

/// CMAC type: AES-CMAC.
pub const CMAC_AES: i32 = 1;

} // verus!
