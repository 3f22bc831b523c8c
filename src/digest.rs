//! The digest stage: SHA-256 of a buffer, and its hex rendering.

use vstd::prelude::*;
use vstd::string::StringSliceAdditionalSpecFns;

use crate::error::CryptoError;
use crate::hex::{hex_encode, hex_of};
use crate::ossl::{sha256, sha256_of};

verus! {

/// The SHA-256 digest of `data`: 32 bytes on success.
pub fn sha256_digest(data: &[u8]) -> (r: Result<Vec<u8>, CryptoError>)
    ensures
        r matches Ok(d) ==> d@ == sha256_of(data@) && d@.len() == 32,
        r matches Err(e) ==> e == CryptoError::Digest,
{
    match sha256(data) {
        Ok(d) => Ok(d),
        Err(_) => Err(CryptoError::Digest),
    }
}

/// The SHA-256 digest of `data` as 64 lowercase hex digits.
pub fn sha256_hex(data: &[u8]) -> (r: Result<String, CryptoError>)
    ensures
        r matches Ok(s) ==> s@ == hex_of(sha256_of(data@)) && s@.len() == 64,
        r matches Err(e) ==> e == CryptoError::Digest,
{
    let d = sha256_digest(data)?;
    Ok(hex_encode(d.as_slice()))
}

/// The lines of the digest report for `input` whose digest is `digest`.
pub open spec fn digest_report_of(input: Seq<char>, digest: Seq<u8>) -> Seq<Seq<char>> {
    seq!["SHA-256 Hash test:"@, "Input: '"@ + input + "'"@, "Hash: "@ + hex_of(digest)]
}

/// The digest stage: the input and the hex of its SHA-256 digest (taken over
/// its UTF-8 bytes), or the failure that stops the run.
pub fn digest_report(input: &str) -> (r: Result<Vec<String>, CryptoError>)
    ensures
        r matches Ok(lines) ==> lines@.map_values(|l: String| l@) == digest_report_of(
            input@,
            sha256_of(input.spec_bytes()),
        ),
        r matches Err(e) ==> e == CryptoError::Digest,
{
    let hex = sha256_hex(input.as_bytes())?;
    let mut second = String::from_str("Input: '");
    second.append(input);
    second.append("'");
    let mut third = String::from_str("Hash: ");
    third.append(hex.as_str());
    let lines = vec![String::from_str("SHA-256 Hash test:"), second, third];
    assert(lines@.map_values(|l: String| l@) =~= digest_report_of(
        input@,
        sha256_of(input.spec_bytes()),
    ));
    Ok(lines)
}

} // verus!
