# wolfssl

A Rust wrapper around the wolfCrypt library (AES modes, CMAC, DH, ECC,
Ed25519, KDF, RNG, RSA), split in two.

- `src/` is the verified library.  It holds what the wrapper decides around
  each wolfCrypt call: the 32-bit sizes that lengths become (`buffers`), the
  arguments refused before a call (IV length, mismatched input and output
  buffers, HKDF output size), the constants and flags passed (`aes`, `cmac`,
  `dh`, `ecc`, `ed25519`, `kdf`, `rsa`), and how return codes become results
  (`status`).  Every function there has a contract proved by Verus.
- `app/` holds the objects that own wolfCrypt state (`CBC`, `ECC`, `RSA`,
  `RNG`, ...) and make the foreign calls through `wolfssl-sys`.  Those calls
  are `unsafe` and stand outside the verified code; each of them takes its
  arguments from, and hands its return code to, a function of `src/`.
- `tests/` exercises the library on concrete values.
