//! The failures a decrypt call can surface. An unreadable or unparsable
//! identity file is not here: it is tolerated during identity loading and only
//! counted, so that a valid identity in another file can still succeed.

use vstd::prelude::*;
use vstd::string::StringExecFns;

verus! {

broadcast use vstd::string::group_string_axioms;

/// Why a decrypt call failed.
#[derive(Debug)]
pub enum SecretError {
    /// A supplied path has no file-name component, so no cache key can be
    /// derived from it.
    Path,
    /// The ciphertext could not be read, its header is malformed, or no
    /// supplied identity decrypts it; carries the underlying message.
    Decryption(String),
    /// A file-system operation on the cache failed; a missing entry is never
    /// an error, only an expected miss.
    CacheIo(String),
}

impl SecretError {
    /// A human-readable message for the failure.
    pub fn message(&self) -> (m: String)
        ensures
            self is Path ==> m@ == "Incorrect path!"@,
            self matches SecretError::Decryption(s) ==> m@ == s@,
            self matches SecretError::CacheIo(s) ==> m@ == s@,
    {
        match self {
            SecretError::Path => String::from_str("Incorrect path!"),
            SecretError::Decryption(s) => s.clone(),
            SecretError::CacheIo(s) => s.clone(),
        }
    }
}

} // verus!
