//! Sizes and limits of AES-256-GCM-SIV, as predicates over lengths and as
//! the executable tests that decide them.

use vstd::prelude::*;

verus! {

/// Length of a key in bytes.
pub const KEY_LEN: usize = 32;

/// Length of a nonce in bytes.
pub const NONCE_LEN: usize = 12;

/// Length of the authentication tag that ends every ciphertext.
pub const TAG_LEN: usize = 16;

/// Largest plaintext, in bytes, that the construction accepts: 2^36.
pub const P_MAX: u64 = 0x10_0000_0000;

/// Largest ciphertext, tag included: `P_MAX` plus the tag.
pub const C_MAX: u64 = 0x10_0000_0010;

/// A key is valid when it has exactly `KEY_LEN` bytes.
pub open spec fn valid_key(key: Seq<u8>) -> bool {
    key.len() == KEY_LEN
}

/// A nonce is valid when it has exactly `NONCE_LEN` bytes.
pub open spec fn valid_nonce(nonce: Seq<u8>) -> bool {
    nonce.len() == NONCE_LEN
}

/// A plaintext of `len` bytes can be sealed: it is within `P_MAX`, and its
/// ciphertext, one tag longer, can still be held in memory.
pub open spec fn plaintext_fits(len: nat) -> bool {
    len <= P_MAX && len + TAG_LEN <= usize::MAX
}

/// A ciphertext of `len` bytes is well formed: it holds at least a tag and
/// is within `C_MAX`.
pub open spec fn ciphertext_fits(len: nat) -> bool {
    TAG_LEN <= len <= C_MAX
}

/// Decides `plaintext_fits`.
pub fn plaintext_len_fits(len: usize) -> (ok: bool)
    ensures
        ok == plaintext_fits(len as nat),
{
    len as u64 <= P_MAX && len <= usize::MAX - TAG_LEN
}

/// Decides `ciphertext_fits`.
pub fn ciphertext_len_fits(len: usize) -> (ok: bool)
    ensures
        ok == ciphertext_fits(len as nat),
{
    TAG_LEN <= len && len as u64 <= C_MAX
}

/// The two limits agree: a plaintext can be sealed exactly when the
/// ciphertext one tag longer is well formed and can be held in memory.
pub proof fn lemma_limits_agree(len: nat)
    ensures
        plaintext_fits(len) <==> ciphertext_fits(len + TAG_LEN as nat) && len + TAG_LEN <= usize::MAX,
{
}

} // verus!
