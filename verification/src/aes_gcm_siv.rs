//! AES-256-GCM-SIV on byte slices: `encrypt`, `try_encrypt` and `decrypt`.
//!
//! No associated data is used. A ciphertext is the encrypted plaintext
//! followed by a 16-byte tag.

use vstd::prelude::*;

use crate::params::{
    ciphertext_fits, ciphertext_len_fits, plaintext_fits, plaintext_len_fits, valid_key,
    valid_nonce, KEY_LEN, NONCE_LEN, TAG_LEN,
};
use crate::primitive::{aead_open, aead_seal, cipher_decrypt, cipher_encrypt};

verus! {

/// Why `try_encrypt` refused its input.
#[derive(Clone, Copy, Debug, PartialEq, Eq, Structural)]
pub enum EncryptError {
    /// The key does not have `KEY_LEN` bytes.
    InvalidKeyLength,
    /// The nonce does not have `NONCE_LEN` bytes.
    InvalidNonceLength,
    /// The plaintext is longer than the construction accepts.
    PlaintextTooLarge,
}

/// `ciphertext` is the sealing of `plaintext` under `key` and `nonce`: the
/// three are of accepted lengths, and `ciphertext` is what the cipher
/// returns for them.
pub open spec fn seals_to(
    key: Seq<u8>,
    nonce: Seq<u8>,
    plaintext: Seq<u8>,
    ciphertext: Seq<u8>,
) -> bool {
    &&& valid_key(key)
    &&& valid_nonce(nonce)
    &&& plaintext_fits(plaintext.len())
    &&& ciphertext == aead_seal(key, nonce, plaintext)
}

/// The error with which input of these lengths is refused, the key being
/// looked at first, then the nonce, then the plaintext; `None` where the
/// input is accepted.
pub open spec fn encrypt_rejection(
    plaintext_len: nat,
    nonce_len: nat,
    key_len: nat,
) -> Option<EncryptError> {
    if key_len != KEY_LEN {
        Some(EncryptError::InvalidKeyLength)
    } else if nonce_len != NONCE_LEN {
        Some(EncryptError::InvalidNonceLength)
    } else if !plaintext_fits(plaintext_len) {
        Some(EncryptError::PlaintextTooLarge)
    } else {
        None
    }
}

/// What `decrypt` returns: nothing for a key, a nonce or a ciphertext of a
/// length that is not accepted, and otherwise what the cipher returns.
pub open spec fn spec_decrypt(
    key: Seq<u8>,
    nonce: Seq<u8>,
    ciphertext: Seq<u8>,
) -> Option<Seq<u8>> {
    if valid_key(key) && valid_nonce(nonce) && ciphertext_fits(ciphertext.len()) {
        aead_open(key, nonce, ciphertext)
    } else {
        None
    }
}

/// Tests the lengths of a plaintext, a nonce and a key before anything is
/// encrypted, and says with which error they are refused.
pub fn validate_encrypt_lengths(
    plaintext_len: usize,
    nonce_len: usize,
    key_len: usize,
) -> (result: Result<(), EncryptError>)
    ensures
        result is Ok <==> encrypt_rejection(
            plaintext_len as nat,
            nonce_len as nat,
            key_len as nat,
        ) is None,
        result matches Err(error) ==> encrypt_rejection(
            plaintext_len as nat,
            nonce_len as nat,
            key_len as nat,
        ) == Some(error),
{
    if key_len != KEY_LEN {
        Err(EncryptError::InvalidKeyLength)
    } else if nonce_len != NONCE_LEN {
        Err(EncryptError::InvalidNonceLength)
    } else if !plaintext_len_fits(plaintext_len) {
        Err(EncryptError::PlaintextTooLarge)
    } else {
        Ok(())
    }
}

/// Encrypts `plaintext` under a 32-byte key and a 12-byte nonce and returns
/// the ciphertext with its tag.
///
/// The result is a function of the three arguments, is one tag longer than
/// the plaintext (so never empty and never over `C_MAX`), and `decrypt`
/// under the same key and nonce opens it to `plaintext`. An empty plaintext
/// is sealed like any other.
pub fn encrypt(plaintext: &[u8], nonce_slice: &[u8], key_slice: &[u8]) -> (ciphertext: Vec<u8>)
    requires
        valid_key(key_slice@),
        valid_nonce(nonce_slice@),
        plaintext_fits(plaintext@.len()),
    ensures
        seals_to(key_slice@, nonce_slice@, plaintext@, ciphertext@),
        ciphertext@.len() == plaintext@.len() + TAG_LEN,
        ciphertext_fits(ciphertext@.len()),
        spec_decrypt(key_slice@, nonce_slice@, ciphertext@) == Some(plaintext@),
{
    cipher_encrypt(key_slice, nonce_slice, plaintext).unwrap()
}

/// Encrypts like `encrypt`, after testing the lengths of its input: a key
/// or a nonce of the wrong length, or a plaintext that is too long, is
/// refused with its own error before the cipher is reached.
pub fn try_encrypt(
    plaintext: &[u8],
    nonce_slice: &[u8],
    key_slice: &[u8],
) -> (result: Result<Vec<u8>, EncryptError>)
    ensures
        result is Ok <==> encrypt_rejection(
            plaintext@.len(),
            nonce_slice@.len(),
            key_slice@.len(),
        ) is None,
        result matches Err(error) ==> encrypt_rejection(
            plaintext@.len(),
            nonce_slice@.len(),
            key_slice@.len(),
        ) == Some(error),
        result matches Ok(ciphertext) ==> seals_to(
            key_slice@,
            nonce_slice@,
            plaintext@,
            ciphertext@,
        ),
        result matches Ok(ciphertext) ==> ciphertext@.len() == plaintext@.len() + TAG_LEN,
        result matches Ok(ciphertext) ==> ciphertext_fits(ciphertext@.len()),
        result matches Ok(ciphertext) ==> spec_decrypt(key_slice@, nonce_slice@, ciphertext@)
            == Some(plaintext@),
{
    match validate_encrypt_lengths(plaintext.len(), nonce_slice.len(), key_slice.len()) {
        Ok(_) => Ok(encrypt(plaintext, nonce_slice, key_slice)),
        Err(error) => Err(error),
    }
}

/// Decrypts `ciphertext` under `key_slice` and `nonce_slice`, and returns
/// the plaintext only where the tag vouches for it.
///
/// Nothing is returned for a key or a nonce of the wrong length, nor for a
/// ciphertext shorter than a tag or longer than `C_MAX`: those never reach
/// the cipher. A plaintext that is returned is one tag shorter than the
/// ciphertext, and its sealing under this key and nonce is exactly
/// `ciphertext`; bytes that are the sealing of no plaintext under this key
/// and nonce are opened to nothing. So a ciphertext that was altered, cut
/// short or made under another key or nonce is opened only if its bytes
/// are themselves the sealing of the plaintext returned, and never to the
/// plaintext that the unaltered bytes stood for.
pub fn decrypt(
    key_slice: &[u8],
    nonce_slice: &[u8],
    ciphertext: Vec<u8>,
) -> (result: Option<Vec<u8>>)
    ensures
        result is Some <==> spec_decrypt(key_slice@, nonce_slice@, ciphertext@) is Some,
        result matches Some(plaintext) ==> spec_decrypt(key_slice@, nonce_slice@, ciphertext@)
            == Some(plaintext@),
        result matches Some(plaintext) ==> seals_to(
            key_slice@,
            nonce_slice@,
            plaintext@,
            ciphertext@,
        ),
        result matches Some(plaintext) ==> plaintext@.len() + TAG_LEN == ciphertext@.len(),
        (forall|plaintext: Seq<u8>|
            !seals_to(key_slice@, nonce_slice@, plaintext, ciphertext@)) ==> result is None,
        !valid_key(key_slice@) ==> result is None,
        !valid_nonce(nonce_slice@) ==> result is None,
        !ciphertext_fits(ciphertext@.len()) ==> result is None,
{
    if key_slice.len() != KEY_LEN || nonce_slice.len() != NONCE_LEN {
        return None;
    }
    if !ciphertext_len_fits(ciphertext.len()) {
        return None;
    }
    match cipher_decrypt(key_slice, nonce_slice, ciphertext.as_slice()) {
        Ok(plaintext) => Some(plaintext),
        Err(_) => None,
    }
}

/// Under one key and nonce, two different ciphertexts are sealings of two
/// different plaintexts.
///
/// `decrypt` returns only a plaintext of which its input is the sealing. So
/// for bytes that differ from the sealing of a plaintext, in one bit or in
/// many, it does not return that plaintext.
pub proof fn lemma_distinct_ciphertexts_seal_distinct_plaintexts(
    key: Seq<u8>,
    nonce: Seq<u8>,
    plaintext: Seq<u8>,
    ciphertext: Seq<u8>,
    other_plaintext: Seq<u8>,
    other_ciphertext: Seq<u8>,
)
    requires
        seals_to(key, nonce, plaintext, ciphertext),
        seals_to(key, nonce, other_plaintext, other_ciphertext),
        ciphertext != other_ciphertext,
    ensures
        plaintext != other_plaintext,
{
}

} // verus!
