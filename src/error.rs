//! Failures of the cryptographic primitives.

use vstd::prelude::*;

verus! {

/// Which primitive failed. Any of them is fatal to the run that needed it.
#[derive(Debug, Clone, Copy, PartialEq, Eq, Structural)]
pub enum CryptoError {
    /// Computing a digest failed.
    Digest,
    /// The secure random source could not fill a buffer.
    Random,
    /// Encryption failed.
    Encrypt,
    /// Decryption failed (including a bad padding block).
    Decrypt,
}

impl CryptoError {
    /// A human-readable description of the failure.
    pub fn message(&self) -> (r: String)
        ensures
            r@ == crypto_error_text(*self),
    {
        match self {
            CryptoError::Digest => String::from_str("digest computation failed"),
            CryptoError::Random => String::from_str("random source failed"),
            CryptoError::Encrypt => String::from_str("encryption failed"),
            CryptoError::Decrypt => String::from_str("decryption failed"),
        }
    }
}

/// The text that `CryptoError::message` returns.
pub open spec fn crypto_error_text(e: CryptoError) -> Seq<char> {
    match e {
        CryptoError::Digest => "digest computation failed"@,
        CryptoError::Random => "random source failed"@,
        CryptoError::Encrypt => "encryption failed"@,
        CryptoError::Decrypt => "decryption failed"@,
    }
}

} // verus!
