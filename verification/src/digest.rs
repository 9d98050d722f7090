//! SHA-256 fingerprints of file contents through the `sha2` crate.

use vstd::prelude::*;
use crate::encoding::{encode_hex, hex_lower};

verus! {

/// The SHA-256 digest of some bytes, as `sha2::Sha256` computes it.
pub uninterp spec fn sha256_digest(data: Seq<u8>) -> Seq<u8>;

/// The fingerprint recorded for a file: the lowercase hex text of its SHA-256 digest.
pub open spec fn file_fingerprint(content: Seq<u8>) -> Seq<char> {
    hex_lower(sha256_digest(content))
}

/// `sha2::Digest::digest` for `Sha256`. The digest is named by `sha256_digest`; its length
/// is the 32 bytes of `Sha256`'s output size. The hash function itself is not written out.
#[verifier::external_body]
pub fn sha256(data: &[u8]) -> (r: Vec<u8>)
    ensures
        r@ == sha256_digest(data@),
        r@.len() == 32,
{
    <sha2::Sha256 as sha2::Digest>::digest(data).to_vec()
}

/// The lowercase hex SHA-256 fingerprint of a file's contents.
pub fn file_sha256_hex(content: &[u8]) -> (r: String)
    ensures
        r@ == file_fingerprint(content@),
        r@.len() == 64,
{
    let d = sha256(content);
    encode_hex(d.as_slice())
}

} // verus!
