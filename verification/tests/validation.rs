use nutek_cipher_lib::aes_gcm_siv::{validate_encrypt_lengths, decrypt, encrypt, try_encrypt, EncryptError};
use nutek_cipher_lib::params::{
    ciphertext_len_fits, plaintext_len_fits, C_MAX, KEY_LEN, NONCE_LEN, P_MAX, TAG_LEN,
};

const KEY: &[u8; 32] = b"12345678123456781234567812345678";
const NONCE: &[u8; 12] = b"123456123456";

#[test]
fn sizes_are_those_of_aes_256_gcm_siv() {
    assert_eq!(KEY_LEN, 32);
    assert_eq!(NONCE_LEN, 12);
    assert_eq!(TAG_LEN, 16);
    assert_eq!(P_MAX, 68_719_476_736);
    assert_eq!(C_MAX, 68_719_476_752);
}

#[test]
fn limits_are_those_of_the_cipher() {
    assert_eq!(P_MAX, aes_gcm_siv::P_MAX);
    assert_eq!(C_MAX, aes_gcm_siv::C_MAX);
    assert_eq!(P_MAX, 1u64 << 36);
    assert_eq!(C_MAX, P_MAX + 16);
}

#[test]
fn accepted_lengths_are_valid() {
    assert_eq!(validate_encrypt_lengths(0, 12, 32), Ok(()));
    assert_eq!(validate_encrypt_lengths(11, 12, 32), Ok(()));
    assert_eq!(validate_encrypt_lengths(68_719_476_736, 12, 32), Ok(()));
}

#[test]
fn wrong_key_length_is_refused() {
    assert_eq!(validate_encrypt_lengths(11, 12, 0), Err(EncryptError::InvalidKeyLength));
    assert_eq!(validate_encrypt_lengths(11, 12, 16), Err(EncryptError::InvalidKeyLength));
    assert_eq!(validate_encrypt_lengths(11, 12, 31), Err(EncryptError::InvalidKeyLength));
    assert_eq!(validate_encrypt_lengths(11, 12, 33), Err(EncryptError::InvalidKeyLength));
}

#[test]
fn wrong_nonce_length_is_refused() {
    assert_eq!(validate_encrypt_lengths(11, 0, 32), Err(EncryptError::InvalidNonceLength));
    assert_eq!(validate_encrypt_lengths(11, 11, 32), Err(EncryptError::InvalidNonceLength));
    assert_eq!(validate_encrypt_lengths(11, 13, 32), Err(EncryptError::InvalidNonceLength));
}

#[test]
fn oversized_plaintext_is_refused() {
    assert_eq!(
        validate_encrypt_lengths(68_719_476_737, 12, 32),
        Err(EncryptError::PlaintextTooLarge)
    );
    assert_eq!(validate_encrypt_lengths(usize::MAX, 12, 32), Err(EncryptError::PlaintextTooLarge));
}

#[test]
fn key_is_tested_before_nonce_and_nonce_before_plaintext() {
    assert_eq!(validate_encrypt_lengths(usize::MAX, 13, 31), Err(EncryptError::InvalidKeyLength));
    assert_eq!(validate_encrypt_lengths(usize::MAX, 13, 32), Err(EncryptError::InvalidNonceLength));
}

#[test]
fn try_encrypt_refuses_a_short_key() {
    assert_eq!(
        try_encrypt(b"hello world", NONCE, &KEY[..31]),
        Err(EncryptError::InvalidKeyLength)
    );
}

#[test]
fn try_encrypt_refuses_a_long_key() {
    let mut key = KEY.to_vec();
    key.push(b'9');
    assert_eq!(try_encrypt(b"hello world", NONCE, &key), Err(EncryptError::InvalidKeyLength));
}

#[test]
fn try_encrypt_refuses_an_empty_key() {
    assert_eq!(try_encrypt(b"hello world", NONCE, b""), Err(EncryptError::InvalidKeyLength));
}

#[test]
fn try_encrypt_refuses_a_short_nonce() {
    assert_eq!(
        try_encrypt(b"hello world", &NONCE[..11], KEY),
        Err(EncryptError::InvalidNonceLength)
    );
}

#[test]
fn try_encrypt_refuses_a_long_nonce() {
    assert_eq!(
        try_encrypt(b"hello world", b"1234561234567", KEY),
        Err(EncryptError::InvalidNonceLength)
    );
}

#[test]
fn try_encrypt_reports_the_key_first() {
    assert_eq!(
        try_encrypt(b"hello world", b"short", b"short"),
        Err(EncryptError::InvalidKeyLength)
    );
}

#[test]
fn decrypt_refuses_a_wrong_key_length() {
    let ciphertext = encrypt(b"hello world", NONCE, KEY);
    assert_eq!(decrypt(&KEY[..31], NONCE, ciphertext.clone()), None);
    assert_eq!(decrypt(&KEY[..16], NONCE, ciphertext.clone()), None);
    assert_eq!(decrypt(b"", NONCE, ciphertext), None);
}

#[test]
fn decrypt_refuses_a_wrong_nonce_length() {
    let ciphertext = encrypt(b"hello world", NONCE, KEY);
    assert_eq!(decrypt(KEY, &NONCE[..11], ciphertext.clone()), None);
    assert_eq!(decrypt(KEY, b"1234561234567", ciphertext.clone()), None);
    assert_eq!(decrypt(KEY, b"", ciphertext), None);
}

#[test]
fn decrypt_refuses_less_than_a_tag() {
    assert_eq!(decrypt(KEY, NONCE, Vec::new()), None);
    assert_eq!(decrypt(KEY, NONCE, vec![0u8; 1]), None);
    assert_eq!(decrypt(KEY, NONCE, vec![0u8; 15]), None);
}

#[test]
fn plaintext_limit_is_exact() {
    assert!(plaintext_len_fits(0));
    assert!(plaintext_len_fits(1));
    assert!(plaintext_len_fits(68_719_476_735));
    assert!(plaintext_len_fits(68_719_476_736));
    assert!(!plaintext_len_fits(68_719_476_737));
    assert!(!plaintext_len_fits(usize::MAX - 16));
    assert!(!plaintext_len_fits(usize::MAX));
}

#[test]
fn ciphertext_limits_are_exact() {
    assert!(!ciphertext_len_fits(0));
    assert!(!ciphertext_len_fits(15));
    assert!(ciphertext_len_fits(16));
    assert!(ciphertext_len_fits(17));
    assert!(ciphertext_len_fits(68_719_476_752));
    assert!(!ciphertext_len_fits(68_719_476_753));
    assert!(!ciphertext_len_fits(usize::MAX));
}

#[test]
fn plaintext_fits_exactly_when_its_ciphertext_does() {
    for len in [0usize, 1, 15, 16, 68_719_476_735, 68_719_476_736, 68_719_476_737] {
        assert_eq!(plaintext_len_fits(len), ciphertext_len_fits(len + TAG_LEN));
    }
}

#[test]
fn errors_compare_and_print() {
    assert_ne!(EncryptError::InvalidKeyLength, EncryptError::InvalidNonceLength);
    assert_ne!(EncryptError::InvalidNonceLength, EncryptError::PlaintextTooLarge);
    assert_eq!(format!("{:?}", EncryptError::PlaintextTooLarge), "PlaintextTooLarge");
    let copy = EncryptError::InvalidKeyLength;
    assert_eq!(copy.clone(), EncryptError::InvalidKeyLength);
}
