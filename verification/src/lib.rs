//! Authenticated encryption with AES-256-GCM-SIV over plain byte slices.
//!
//! The cipher itself is the `aes-gcm-siv` crate. This library validates the
//! lengths of keys, nonces, plaintexts and ciphertexts before the cipher is
//! reached, and states in its contracts what callers may rely on: which
//! inputs are rejected, how long a ciphertext is, that a ciphertext opens to
//! the plaintext it was made from, and that nothing is ever opened to a
//! plaintext that does not seal to the very bytes that were handed in.
//!
//! * [`params`] holds the sizes and limits of the construction.
//! * [`primitive`] holds the calls into the cipher; their contracts are
//!   believed, not proved.
//! * [`aes_gcm_siv`] holds `encrypt`, `try_encrypt` and `decrypt`.

pub mod aes_gcm_siv;
pub mod params;
pub mod primitive;
