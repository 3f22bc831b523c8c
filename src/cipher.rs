//! The cipher self-check: encrypt and decrypt under AES-256-CBC with fresh
//! random key material, and compare with the original plaintext.

use vstd::prelude::*;

use crate::error::CryptoError;
use crate::ossl::{
    aes_256_cbc_decrypt,
    aes_256_cbc_decrypt_of,
    aes_256_cbc_encrypt,
    aes_256_cbc_encrypt_of,
    fill_random,
};

verus! {

/// Length of an AES-256 key in bytes.
pub const KEY_LEN: usize = 32;

/// Length of an AES-CBC initialization vector in bytes.
pub const IV_LEN: usize = 16;

/// Largest plaintext the self-check accepts: its ciphertext, one block
/// longer, must still fit in a C `int`.
pub const MAX_PLAINTEXT_LEN: usize = 2147483631;

/// What decrypting the encryption of `plaintext` yields under `key` and `iv`.
pub open spec fn round_trip_of(key: Seq<u8>, iv: Seq<u8>, plaintext: Seq<u8>) -> Seq<u8> {
    aes_256_cbc_decrypt_of(key, iv, aes_256_cbc_encrypt_of(key, iv, plaintext))
}

/// Encrypts `plaintext` under AES-256-CBC with `key` and `iv`: a ciphertext
/// that decrypts back to `plaintext` under the same key and IV.
pub fn encrypt(key: &[u8], iv: &[u8], plaintext: &[u8]) -> (r: Result<Vec<u8>, CryptoError>)
    requires
        key@.len() == KEY_LEN,
        iv@.len() == IV_LEN,
        plaintext@.len() <= MAX_PLAINTEXT_LEN,
    ensures
        r matches Ok(c) ==> c@ == aes_256_cbc_encrypt_of(key@, iv@, plaintext@) && c@.len()
            <= plaintext@.len() + 16 && aes_256_cbc_decrypt_of(key@, iv@, c@) == plaintext@,
        r matches Err(e) ==> e == CryptoError::Encrypt,
{
    match aes_256_cbc_encrypt(key, iv, plaintext) {
        Ok(c) => Ok(c),
        Err(_) => Err(CryptoError::Encrypt),
    }
}

/// Decrypts `ciphertext` under AES-256-CBC with `key` and `iv`.
pub fn decrypt(key: &[u8], iv: &[u8], ciphertext: &[u8]) -> (r: Result<Vec<u8>, CryptoError>)
    requires
        key@.len() == KEY_LEN,
        iv@.len() == IV_LEN,
        ciphertext@.len() <= i32::MAX,
    ensures
        r matches Ok(p) ==> p@ == aes_256_cbc_decrypt_of(key@, iv@, ciphertext@),
        r matches Err(e) ==> e == CryptoError::Decrypt,
{
    match aes_256_cbc_decrypt(key, iv, ciphertext) {
        Ok(p) => Ok(p),
        Err(_) => Err(CryptoError::Decrypt),
    }
}

/// Encrypts `plaintext` and decrypts the result, both under `key` and `iv`.
/// Whenever both steps succeed, the result is the original plaintext.
pub fn cipher_round_trip(key: &[u8], iv: &[u8], plaintext: &[u8]) -> (r: Result<
    Vec<u8>,
    CryptoError,
>)
    requires
        key@.len() == KEY_LEN,
        iv@.len() == IV_LEN,
        plaintext@.len() <= MAX_PLAINTEXT_LEN,
    ensures
        r matches Ok(d) ==> d@ == round_trip_of(key@, iv@, plaintext@) && d@ == plaintext@,
        r matches Err(e) ==> e == CryptoError::Encrypt || e == CryptoError::Decrypt,
{
    let c = encrypt(key, iv, plaintext)?;
    decrypt(key, iv, c.as_slice())
}

/// Whether `decrypted` is byte for byte the same as `plaintext`.
pub fn round_trip_matches(plaintext: &[u8], decrypted: &[u8]) -> (r: bool)
    ensures
        r == (decrypted@ == plaintext@),
{
    if plaintext.len() != decrypted.len() {
        return false;
    }
    let mut i: usize = 0;
    while i < plaintext.len()
        invariant
            plaintext@.len() == decrypted@.len(),
            0 <= i <= plaintext@.len(),
            forall|j: int| 0 <= j < i ==> plaintext@[j] == decrypted@[j],
        decreases plaintext@.len() - i,
    {
        if plaintext[i] != decrypted[i] {
            return false;
        }
        i += 1;
    }
    assert(decrypted@ =~= plaintext@);
    true
}

/// A buffer of `len` bytes from the secure random source.
pub fn random_bytes(len: usize) -> (r: Result<Vec<u8>, CryptoError>)
    requires
        len <= i32::MAX,
    ensures
        r matches Ok(b) ==> b@.len() == len,
        r matches Err(e) ==> e == CryptoError::Random,
{
    let mut buf: Vec<u8> = Vec::new();
    let mut i: usize = 0;
    while i < len
        invariant
            i <= len,
            buf@.len() == i,
        decreases len - i,
    {
        buf.push(0u8);
        i += 1;
    }
    match fill_random(&mut buf) {
        Ok(()) => Ok(buf),
        Err(_) => Err(CryptoError::Random),
    }
}

/// The self-check: draws a fresh 32-byte key and 16-byte IV, encrypts and
/// decrypts `plaintext` under AES-256-CBC, and tells whether the result is
/// the original plaintext, which it always is when every step succeeds.
pub fn cipher_self_check(plaintext: &[u8]) -> (r: Result<bool, CryptoError>)
    requires
        plaintext@.len() <= MAX_PLAINTEXT_LEN,
    ensures
        r matches Ok(b) ==> b && exists|key: Seq<u8>, iv: Seq<u8>|
            key.len() == KEY_LEN && iv.len() == IV_LEN && round_trip_of(key, iv, plaintext@)
                == plaintext@,
        r matches Err(e) ==> e == CryptoError::Random || e == CryptoError::Encrypt || e
            == CryptoError::Decrypt,
{
    let key = random_bytes(KEY_LEN)?;
    let iv = random_bytes(IV_LEN)?;
    let d = cipher_round_trip(key.as_slice(), iv.as_slice(), plaintext)?;
    let b = round_trip_matches(plaintext, d.as_slice());
    assert(key@.len() == KEY_LEN && iv@.len() == IV_LEN && round_trip_of(key@, iv@, plaintext@)
        == plaintext@);
    Ok(b)
}

} // verus!
