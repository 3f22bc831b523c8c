//! The calls into the OpenSSL bindings that the library relies on, each with
//! the contract that the rest of the crate is proved against.

use vstd::prelude::*;

verus! {

/// OpenSSL's error queue, handed back by every fallible binding.
#[verifier::external_type_specification]
#[verifier::external_body]
pub struct ExErrorStack(openssl::error::ErrorStack);

/// The SHA-256 digest of a byte sequence.
pub uninterp spec fn sha256_of(data: Seq<u8>) -> Seq<u8>;

/// Relies on `openssl::hash::hash` with `MessageDigest::sha256()`: on success it
/// returns the SHA-256 digest of `data`, which is 32 bytes long.
#[verifier::external_body]
pub(crate) fn sha256(data: &[u8]) -> (r: Result<Vec<u8>, openssl::error::ErrorStack>)
    ensures
        r matches Ok(d) ==> d@ == sha256_of(data@) && d@.len() == 32,
{
    openssl::hash::hash(openssl::hash::MessageDigest::sha256(), data).map(|d| d.to_vec())
}

/// AES-256-CBC encryption with PKCS#7 padding, under a key and an IV.
pub uninterp spec fn aes_256_cbc_encrypt_of(key: Seq<u8>, iv: Seq<u8>, data: Seq<u8>) -> Seq<u8>;

/// AES-256-CBC decryption with PKCS#7 padding removed, under a key and an IV.
pub uninterp spec fn aes_256_cbc_decrypt_of(key: Seq<u8>, iv: Seq<u8>, data: Seq<u8>) -> Seq<u8>;

/// Relies on `openssl::symm::encrypt` with `Cipher::aes_256_cbc()` (padding
/// enabled): on success the ciphertext of `data`, at most one block (16 bytes)
/// longer than `data` (the output buffer is `data.len() + block_size` bytes
/// and is truncated), and one that `openssl::symm::decrypt` under the same key
/// and IV turns back into `data`, as the paired doc examples of the two
/// functions show. The key must be 32 bytes and the IV 16 (a shorter one
/// trips the binding's asserts in `CipherCtxRef::cipher_init`), and the input
/// length must fit in a C `int`, else the binding panics.
#[verifier::external_body]
pub(crate) fn aes_256_cbc_encrypt(key: &[u8], iv: &[u8], data: &[u8]) -> (r: Result<
    Vec<u8>,
    openssl::error::ErrorStack,
>)
    requires
        key@.len() == 32,
        iv@.len() == 16,
        data@.len() <= i32::MAX,
    ensures
        r matches Ok(c) ==> c@ == aes_256_cbc_encrypt_of(key@, iv@, data@) && c@.len() <= data@.len()
            + 16 && aes_256_cbc_decrypt_of(key@, iv@, c@) == data@,
{
    openssl::symm::encrypt(openssl::symm::Cipher::aes_256_cbc(), key, Some(iv), data)
}

/// Relies on `openssl::symm::decrypt` with `Cipher::aes_256_cbc()`: on success
/// the plaintext of `data`. The key must be 32 bytes and the IV 16 (a shorter
/// one trips the binding's asserts in `CipherCtxRef::cipher_init`), and the
/// input length must fit in a C `int`, else the binding panics.
#[verifier::external_body]
pub(crate) fn aes_256_cbc_decrypt(key: &[u8], iv: &[u8], data: &[u8]) -> (r: Result<
    Vec<u8>,
    openssl::error::ErrorStack,
>)
    requires
        key@.len() == 32,
        iv@.len() == 16,
        data@.len() <= i32::MAX,
    ensures
        r matches Ok(p) ==> p@ == aes_256_cbc_decrypt_of(key@, iv@, data@),
{
    openssl::symm::decrypt(openssl::symm::Cipher::aes_256_cbc(), key, Some(iv), data)
}

/// Relies on `openssl::rand::rand_bytes`: it overwrites the buffer with
/// cryptographically strong random bytes and keeps its length. The length
/// must fit in a C `int`, else the binding panics.
#[verifier::external_body]
pub(crate) fn fill_random(buf: &mut Vec<u8>) -> (r: Result<(), openssl::error::ErrorStack>)
    requires
        old(buf)@.len() <= i32::MAX,
    ensures
        final(buf)@.len() == old(buf)@.len(),
{
    openssl::rand::rand_bytes(buf.as_mut_slice())
}

/// Relies on `openssl::version::version`: the text form of the linked OpenSSL
/// version and its release date (such as "OpenSSL 0.9.5a 1 Apr 2000"), so
/// never empty. What it holds otherwise depends on the library that was linked.
#[verifier::external_body]
pub(crate) fn linked_version_text() -> (r: String)
    ensures
        r@.len() > 0,
{
    openssl::version::version().to_string()
}

/// Relies on `openssl::version::number`: the numeric OpenSSL version
/// identifier (`MNNFFPPS`). What it holds depends on the library that was
/// linked.
#[verifier::external_body]
pub(crate) fn linked_version_number() -> (r: i64) {
    openssl::version::number()
}

/// How `Debug` renders a string: in double quotes, with quotes, backslashes
/// and non-printable characters escaped.
pub uninterp spec fn debug_quoted_of(s: Seq<char>) -> Seq<char>;

/// Relies on std's `Debug` impl for `str`: the rendering depends on the
/// characters alone.
#[verifier::external_body]
pub(crate) fn debug_quoted(s: &str) -> (r: String)
    ensures
        r@ == debug_quoted_of(s@),
{
    format!("{:?}", s)
}

} // verus!
