//! Verified core of a Rust wrapper around wolfCrypt.
//!
//! The wrapper's calls into wolfCrypt are foreign functions; what the wrapper
//! decides around them stands here: how lengths become the 32-bit sizes that
//! wolfCrypt receives, which arguments are refused before a call, which
//! constants and flags are passed, and how return codes become results.
use vstd::prelude::*;

pub mod aes;
pub mod buffers;
pub mod cmac;
pub mod dh;
pub mod ecc;
pub mod ed25519;
pub mod kdf;
pub mod rsa;
pub mod status;
