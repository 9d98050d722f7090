//! Signing a file's contents with the key held in a private-key container.

use vstd::prelude::*;
use crate::clock::{now_rfc3339, rfc3339_utc_text};
use crate::containers::{PrivateKeyContainer, SignatureContainer};
use crate::digest::{file_fingerprint, file_sha256_hex, sha256_digest};
use crate::encoding::{base64_decoded, base64_text, decode_base64, encode_base64, hex_lower};
use crate::params::ParamSet;
use crate::slh::{sign_message, slh_signature};
use crate::text::{joined, lowercased, to_lowercase};

verus! {

/// Why a private-key container could not sign.
#[derive(Clone, Copy, Debug, PartialEq, Eq, Structural)]
pub enum SignError {
    /// The private key is not valid base64.
    PrivateKeyNotBase64,
    /// The decoded private key does not have the length of its parameter set's keys.
    InvalidSigningKey,
}

impl SignError {
    /// The message the tool stops with for this error.
    pub fn message(&self) -> (r: &'static str)
        ensures
            match *self {
                SignError::PrivateKeyNotBase64 => r@ == "Failed to decode private key base64"@,
                SignError::InvalidSigningKey => r@ == "Invalid sk bytes"@,
            },
    {
        match self {
            SignError::PrivateKeyNotBase64 => "Failed to decode private key base64",
            SignError::InvalidSigningKey => "Invalid sk bytes",
        }
    }
}

/// The parameter set a private-key container signs with: its lowercased name, or
/// SHA2-128f where that names none.
pub open spec fn signing_set(private: PrivateKeyContainer) -> ParamSet {
    ParamSet::named_or_default(lowercased(private.param_set@))
}

/// What signing `content` (a file called `file_name`) with `private` gives, apart from
/// the signing time: the errors, in the order they are checked, or a container that
/// records the key's algorithm, the lowercased parameter-set name, the file's name and
/// fingerprint, and the scheme's signature in base64 (which decodes back to it).
pub open spec fn signs_as(
    private: PrivateKeyContainer,
    content: Seq<u8>,
    file_name: Seq<char>,
    r: Result<SignatureContainer, SignError>,
) -> bool {
    match base64_decoded(private.private_key_b64@) {
        None => r == Err::<SignatureContainer, SignError>(SignError::PrivateKeyNotBase64),
        Some(sk) => if sk.len() != signing_set(private).signing_key_len() {
            r == Err::<SignatureContainer, SignError>(SignError::InvalidSigningKey)
        } else {
            match r {
                Ok(c) => {
                    &&& c.algorithm@ == private.algorithm@
                    &&& c.param_set@ == lowercased(private.param_set@)
                    &&& c.file_name@ == file_name
                    &&& c.file_sha256@ == file_fingerprint(content)
                    &&& c.signature_b64@ == base64_text(
                        slh_signature(signing_set(private), sk, content),
                    )
                    &&& base64_decoded(c.signature_b64@) == Some(
                        slh_signature(signing_set(private), sk, content),
                    )
                    &&& slh_signature(signing_set(private), sk, content).len()
                        == signing_set(private).signature_len()
                },
                Err(_) => false,
            }
        },
    }
}

/// Signs `content`, the contents of a file called `file_name`, with the key in `private`,
/// stamping the signature container with `signed_at`.
pub fn sign_content(
    private: &PrivateKeyContainer,
    content: &[u8],
    file_name: &str,
    signed_at: &str,
) -> (r: Result<SignatureContainer, SignError>)
    ensures
        signs_as(*private, content@, file_name@, r),
        r matches Ok(c) ==> c.signed_at@ == signed_at@,
        r matches Ok(c) ==> base64_decoded(private.private_key_b64@) matches Some(sk)
            && base64_decoded(c.signature_b64@) == Some(
                slh_signature(ParamSet::named_or_default(lowercased(private.param_set@)), sk, content@),
            ),
        r matches Ok(c) ==> c.file_sha256@ == hex_lower(sha256_digest(content@)),
        (base64_decoded(private.private_key_b64@) matches Some(sk)
            && sk.len() == ParamSet::named_or_default(lowercased(private.param_set@)).signing_key_len())
            ==> r is Ok,
{
    let fingerprint = file_sha256_hex(content);
    let sk = match decode_base64(private.private_key_b64.as_str()) {
        Some(sk) => sk,
        None => return Err(SignError::PrivateKeyNotBase64),
    };
    let norm_param = to_lowercase(private.param_set.as_str());
    let set = ParamSet::from_name_or_default(norm_param.as_str());
    let sig = match sign_message(set, sk.as_slice(), content) {
        Some(sig) => sig,
        None => return Err(SignError::InvalidSigningKey),
    };
    let sig_b64 = encode_base64(sig.as_slice());
    Ok(SignatureContainer {
        algorithm: private.algorithm.clone(),
        param_set: norm_param,
        signed_at: String::from_str(signed_at),
        file_name: String::from_str(file_name),
        file_sha256: fingerprint,
        signature_b64: sig_b64,
    })
}

/// Signs `content`, the contents of a file called `file_name`, with the key in `private`,
/// stamped with the current time: a reading of the clock taken in this call, in RFC 3339. The time varies; everything else
/// is as `signs_as` says.
pub fn sign_file(
    private: &PrivateKeyContainer,
    content: &[u8],
    file_name: &str,
) -> (r: Result<SignatureContainer, SignError>)
    ensures
        signs_as(*private, content@, file_name@, r),
        r matches Ok(c) ==> rfc3339_utc_text(c.signed_at@),
        r matches Ok(c) ==> exists|t: String| call_ensures(now_rfc3339, (), t) && c.signed_at@ == t@,
        r matches Ok(c) ==> base64_decoded(private.private_key_b64@) matches Some(sk)
            && base64_decoded(c.signature_b64@) == Some(
                slh_signature(ParamSet::named_or_default(lowercased(private.param_set@)), sk, content@),
            ),
        r matches Ok(c) ==> c.file_sha256@ == hex_lower(sha256_digest(content@)),
        (base64_decoded(private.private_key_b64@) matches Some(sk)
            && sk.len() == ParamSet::named_or_default(lowercased(private.param_set@)).signing_key_len())
            ==> r is Ok,
{
    let signed_at = now_rfc3339();
    let r = sign_content(private, content, file_name, signed_at.as_str());
    assert(r matches Ok(c) ==> c.signed_at@ == signed_at@);
    r
}

/// Where a signature is written when no output path is given: `<file>.sig`.
pub fn default_signature_path(file_path: &str) -> (r: String)
    ensures
        r@ == file_path@ + ".sig"@,
{
    joined(file_path, ".sig")
}

} // verus!
