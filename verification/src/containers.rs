//! The three records the tool keeps on disk: the private-key container, the public-key
//! container and the signature container, with the private container's wiping.

use vstd::prelude::*;

verus! {

/// The algorithm label written into every container.
pub open spec fn algorithm_label() -> Seq<char> {
    "SLH-DSA (SPHINCS+)"@
}

/// The algorithm label written into every container.
pub fn algorithm_text() -> (r: String)
    ensures
        r@ == algorithm_label(),
{
    String::from_str("SLH-DSA (SPHINCS+)")
}

/// A private-key file: metadata, the public key and the private key, both in base64.
#[derive(Clone, Debug, PartialEq, Eq)]
pub struct PrivateKeyContainer {
    pub algorithm: String,
    pub param_set: String,
    pub created_at: String,
    pub security_category: u8,
    pub public_key_b64: String,
    pub private_key_b64: String,
}

/// A public-key file: metadata and the public key in base64.
#[derive(Clone, Debug, PartialEq, Eq)]
pub struct PublicKeyContainer {
    pub algorithm: String,
    pub param_set: String,
    pub created_at: String,
    pub security_category: u8,
    pub public_key_b64: String,
}

/// A signature file: who signed with what, the signed file's name and SHA-256 fingerprint,
/// and the signature in base64.
#[derive(Clone, Debug, PartialEq, Eq)]
pub struct SignatureContainer {
    pub algorithm: String,
    pub param_set: String,
    pub signed_at: String,
    pub file_name: String,
    pub file_sha256: String,
    pub signature_b64: String,
}

/// `<String as zeroize::Zeroize>::zeroize`: the source overwrites the bytes and clears the
/// string, which is left empty.
#[verifier::external_body]
fn zeroize_text(s: &mut String)
    ensures
        final(s)@ == Seq::<char>::empty(),
{
    zeroize::Zeroize::zeroize(s)
}

/// `<u8 as zeroize::Zeroize>::zeroize`: the source writes the default value, 0.
#[verifier::external_body]
fn zeroize_byte(b: &mut u8)
    ensures
        *final(b) == 0,
{
    zeroize::Zeroize::zeroize(b)
}

impl PrivateKeyContainer {
    /// Wipes every field: the texts are overwritten and emptied, the category set to 0.
    pub fn zeroize(&mut self)
        ensures
            final(self).algorithm@ == Seq::<char>::empty(),
            final(self).param_set@ == Seq::<char>::empty(),
            final(self).created_at@ == Seq::<char>::empty(),
            final(self).security_category == 0,
            final(self).public_key_b64@ == Seq::<char>::empty(),
            final(self).private_key_b64@ == Seq::<char>::empty(),
    {
        zeroize_text(&mut self.algorithm);
        zeroize_text(&mut self.param_set);
        zeroize_text(&mut self.created_at);
        zeroize_byte(&mut self.security_category);
        zeroize_text(&mut self.public_key_b64);
        zeroize_text(&mut self.private_key_b64);
    }
}

} // verus!
