//! A capability probe for the OpenSSL bindings: a SHA-256 digest rendered as
//! hex, an AES-256-CBC encrypt/decrypt self-check, version metadata, and the
//! pure parts of a one-shot HTTPS fetch (request text, response preview and
//! the report printed for each outcome).

pub mod hex;
pub mod error;
pub mod digest;
pub mod ossl;
pub mod cipher;
pub mod probe;
pub mod version;
