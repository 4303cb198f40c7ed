//! Identity loading and the decryption primitive.
//!
//! An identity is an opaque decryption capability; the library holds parsed
//! identities in an [`IdentitySet`] and reasons about them through
//! [`ids_of`], the ordered sequence of their textual encodings. The order is
//! part of the model: decryption tries the identities in turn, so what it
//! yields depends on the sequence, not merely on which identities are present.
//! Parsing an identity file's text and decrypting a ciphertext are the two
//! operations the age crate performs; both are deterministic in their inputs,
//! so their results carry names ([`file_ids`], [`decrypt_result`]) the
//! contracts are exact over.

use vstd::prelude::*;

verus! {

/// The identities parsed so far, as opaque decryption capabilities, in the
/// order they were loaded.
#[verifier::external_body]
pub struct IdentitySet {
    inner: Vec<Box<dyn age::Identity>>,
}

/// The contents of an [`IdentitySet`]: the textual encodings of the
/// identities it holds, in order.
pub uninterp spec fn ids_of(s: IdentitySet) -> Seq<Seq<char>>;

/// The identities encoded in an identity file's text, in file order, a
/// function of the text alone; `None` when the text does not parse as an
/// identity file.
pub uninterp spec fn file_ids(content: Seq<char>) -> Option<Seq<Seq<char>>>;

/// What decrypting a ciphertext with a sequence of identities yields: the
/// plaintext when the scan succeeds and the plaintext is text, `None`
/// otherwise. Deterministic in the ciphertext bytes and the ordered
/// identities — the order is an input, since each identity in turn may
/// succeed, pass, or stop the scan on a malformed recipient stanza.
pub uninterp spec fn decrypt_result(ct: Seq<u8>, ids: Seq<Seq<char>>) -> Option<Seq<char>>;

impl IdentitySet {
    /// Relies on Vec::new: a collection holding no identities.
    #[verifier::external_body]
    pub(crate) fn new() -> (r: IdentitySet)
        ensures
            ids_of(r) == Seq::<Seq<char>>::empty(),
    {
        IdentitySet { inner: Vec::new() }
    }

    /// Relies on Vec::extend: moves every identity of `other` to the end of
    /// `self`, keeping both orders.
    #[verifier::external_body]
    pub(crate) fn absorb(&mut self, other: IdentitySet)
        ensures
            ids_of(*final(self)) == ids_of(*old(self)) + ids_of(other),
    {
        self.inner.extend(other.inner);
    }
}

/// Relies on age::IdentityFile::{from_buffer, into_identities}: parses an
/// identity file's text into the identities it encodes, in file order; fails
/// exactly when the text is not a well-formed identity file.
#[verifier::external_body]
pub(crate) fn parse_identity_text(content: &str) -> (r: Option<IdentitySet>)
    ensures
        r is Some <==> file_ids(content@) is Some,
        r matches Some(s) ==> Some(ids_of(s)) == file_ids(content@),
{
    age::IdentityFile::from_buffer(content.as_bytes())
        .ok()
        .and_then(|f| f.into_identities().ok())
        .map(|v| IdentitySet { inner: v })
}

/// Relies on age::Decryptor::{new, decrypt}: streaming age decryption of a
/// byte buffer, tried against the supplied identities in order; deterministic
/// in the ciphertext and the identity sequence. Fails (with the underlying
/// message) exactly when the header is malformed, the identity scan yields no
/// file key, or the plaintext is not valid text; with no identities at all it
/// always fails (no key can be unwrapped).
#[verifier::external_body]
pub(crate) fn decrypt_bytes(ct: &[u8], ids: &IdentitySet) -> (r: Result<String, String>)
    ensures
        r is Ok <==> decrypt_result(ct@, ids_of(*ids)) is Some,
        r matches Ok(s) ==> Some(s@) == decrypt_result(ct@, ids_of(*ids)),
        ids_of(*ids).len() == 0 ==> r is Err,
{
    let decryptor = match age::Decryptor::new(ct) {
        Ok(d) => d,
        Err(e) => return Err(format!("{}", e)),
    };
    let mut stream = match decryptor.decrypt(ids.inner.iter().map(|b| b.as_ref())) {
        Ok(s) => s,
        Err(e) => return Err(format!("{}", e)),
    };
    let mut content = String::new();
    match std::io::Read::read_to_string(&mut stream, &mut content) {
        Ok(_) => Ok(content),
        Err(e) => Err(format!("{}", e)),
    }
}

} // verus!
