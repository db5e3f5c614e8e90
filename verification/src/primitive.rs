//! The calls into the `aes-gcm-siv` crate.
//!
//! Nothing in this file is proved. Each function here makes one call into
//! the cipher, and its contract says what that call is relied upon to do.
//! The rest of the library is verified against these contracts.

use aes_gcm_siv::aead::{Aead, KeyInit};
use aes_gcm_siv::{Aes256GcmSiv, Key, Nonce};
use vstd::prelude::*;

use crate::params::{ciphertext_fits, plaintext_fits, valid_key, valid_nonce, TAG_LEN};

verus! {

/// The error of the `aead` traits, `aes_gcm_siv::Error`: a unit value that
/// tells nothing of why a call failed.
#[verifier::external_type_specification]
#[verifier::external_body]
pub struct ExCipherError(aes_gcm_siv::Error);

/// The bytes that `Aes256GcmSiv::encrypt` returns for a 32-byte `key`, a
/// 12-byte `nonce` and a `plaintext` within the limit, with no associated
/// data: the encrypted plaintext followed by the tag.
pub uninterp spec fn aead_seal(key: Seq<u8>, nonce: Seq<u8>, plaintext: Seq<u8>) -> Seq<u8>;

/// What `Aes256GcmSiv::decrypt` returns for a 32-byte `key`, a 12-byte
/// `nonce` and a `ciphertext` of at least a tag and at most `C_MAX` bytes,
/// with no associated data: the plaintext where the tag is the one that the
/// plaintext calls for, and nothing otherwise.
pub uninterp spec fn aead_open(key: Seq<u8>, nonce: Seq<u8>, ciphertext: Seq<u8>) -> Option<Seq<u8>>;

/// Calls `Aes256GcmSiv::encrypt` under the cipher that `Aes256GcmSiv::new`
/// makes of `key`.
///
/// Believed of that call, for a key and a nonce of the right lengths and a
/// plaintext within the limit:
/// * it succeeds, since the cipher fails only on a plaintext over `P_MAX`;
/// * its result depends on the three arguments alone, which `aead_seal`
///   names;
/// * the result is one tag longer than the plaintext;
/// * `Aes256GcmSiv::decrypt`, under the same key and nonce, recovers the
///   plaintext from it: decryption removes the same keystream, which the
///   tag seeds, and recomputes the same tag.
///
/// The lengths are required because `GenericArray::from_slice` panics on a
/// slice of another length.
#[verifier::external_body]
pub(crate) fn cipher_encrypt(key: &[u8], nonce: &[u8], plaintext: &[u8]) -> (result: Result<
    Vec<u8>,
    aes_gcm_siv::Error,
>)
    requires
        valid_key(key@),
        valid_nonce(nonce@),
        plaintext_fits(plaintext@.len()),
    ensures
        result is Ok,
        result matches Ok(ciphertext) ==> ciphertext@ == aead_seal(key@, nonce@, plaintext@),
        result matches Ok(ciphertext) ==> ciphertext@.len() == plaintext@.len() + TAG_LEN,
        result matches Ok(ciphertext) ==> aead_open(key@, nonce@, ciphertext@) == Some(plaintext@),
{
    let key = Key::<Aes256GcmSiv>::from_slice(key);
    let cipher = Aes256GcmSiv::new(key);
    let nonce = Nonce::from_slice(nonce);
    cipher.encrypt(nonce, plaintext)
}

/// Calls `Aes256GcmSiv::decrypt` under the cipher that `Aes256GcmSiv::new`
/// makes of `key`.
///
/// Believed of that call, for a key and a nonce of the right lengths and a
/// ciphertext of at least a tag and at most `C_MAX` bytes:
/// * its result depends on the three arguments alone, which `aead_open`
///   names;
/// * a plaintext that it returns is one tag shorter than the ciphertext;
/// * a plaintext that it returns seals, under the same key and nonce, to
///   exactly this ciphertext: the call succeeds only where the tag
///   recomputed from the recovered plaintext equals the tag received, and
///   the keystream depends on key, nonce and tag alone.
///
/// The lengths are required because `GenericArray::from_slice` panics on a
/// slice of another length. The ciphertext is bounded because the cipher
/// itself would still open one that is up to a tag longer than `C_MAX`,
/// to a plaintext that it refuses to seal.
#[verifier::external_body]
pub(crate) fn cipher_decrypt(key: &[u8], nonce: &[u8], ciphertext: &[u8]) -> (result: Result<
    Vec<u8>,
    aes_gcm_siv::Error,
>)
    requires
        valid_key(key@),
        valid_nonce(nonce@),
        ciphertext_fits(ciphertext@.len()),
    ensures
        match result {
            Ok(plaintext) => aead_open(key@, nonce@, ciphertext@) == Some(plaintext@),
            Err(_) => aead_open(key@, nonce@, ciphertext@) is None,
        },
        result matches Ok(plaintext) ==> plaintext@.len() + TAG_LEN == ciphertext@.len(),
        result matches Ok(plaintext) ==> aead_seal(key@, nonce@, plaintext@) == ciphertext@,
{
    let key = Key::<Aes256GcmSiv>::from_slice(key);
    let cipher = Aes256GcmSiv::new(key);
    let nonce = Nonce::from_slice(nonce);
    cipher.decrypt(nonce, ciphertext)
}

} // verus!
