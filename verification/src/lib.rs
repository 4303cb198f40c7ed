//! Decrypts age-encrypted secret files with a set of identities and optionally
//! caches the plaintext in a per-user directory under a shared cache root.
//!
//! The crate separates decisions from effects. Everything that decides —
//! identity-list assembly, cache-key derivation, the permission modes and the
//! order of the directory bring-up, hit/miss/store orchestration — is verified
//! here. The file system itself is driven by the embedding program, which runs
//! a [`session::Session`] step by step: the session says which file to read or
//! which operations to perform, the embedder reports what happened.

pub mod cache;
pub mod errors;
pub mod identity;
pub mod paths;
pub mod session;
