//! Verifying a signature container against a file's contents and a public-key container.

use vstd::prelude::*;
use crate::containers::{PublicKeyContainer, SignatureContainer};
use crate::digest::{file_fingerprint, file_sha256_hex, sha256_digest};
use crate::encoding::{base64_decoded, decode_base64, hex_lower};
use crate::params::ParamSet;
use crate::slh::{slh_accepts, verify_message};
use crate::text::{lowercased, to_lowercase};

verus! {

/// The outcome of checking a signature on a file.
#[derive(Clone, Copy, Debug, PartialEq, Eq, Structural)]
pub enum Verdict {
    /// The file's SHA-256 fingerprint differs from the one the signature recorded.
    HashMismatch,
    /// The signature is valid for the file under the public key.
    Valid,
    /// The signature is not valid for the file under the public key.
    Invalid,
}

/// Why a verification could not be carried out.
#[derive(Clone, Copy, Debug, PartialEq, Eq, Structural)]
pub enum VerifyError {
    /// The public key is not valid base64.
    PublicKeyNotBase64,
    /// The signature is not valid base64.
    SignatureNotBase64,
}

impl VerifyError {
    /// The message the tool stops with for this error.
    pub fn message(&self) -> (r: &'static str)
        ensures
            match *self {
                VerifyError::PublicKeyNotBase64 => r@ == "Failed to decode public key base64"@,
                VerifyError::SignatureNotBase64 => r@ == "Failed to decode signature base64"@,
            },
    {
        match self {
            VerifyError::PublicKeyNotBase64 => "Failed to decode public key base64",
            VerifyError::SignatureNotBase64 => "Failed to decode signature base64",
        }
    }
}

/// What checking `signature` on `content` under `public` gives: a fingerprint mismatch
/// first; then the decoding errors; then Invalid for an unknown parameter-set name, else
/// whether the scheme accepts the signature on the contents under the key.
pub open spec fn verification_outcome(
    public: PublicKeyContainer,
    signature: SignatureContainer,
    content: Seq<u8>,
) -> Result<Verdict, VerifyError> {
    if signature.file_sha256@ != file_fingerprint(content) {
        Ok(Verdict::HashMismatch)
    } else {
        match base64_decoded(public.public_key_b64@) {
            None => Err(VerifyError::PublicKeyNotBase64),
            Some(pk) => match base64_decoded(signature.signature_b64@) {
                None => Err(VerifyError::SignatureNotBase64),
                Some(sig) => match ParamSet::named(lowercased(public.param_set@)) {
                    None => Ok(Verdict::Invalid),
                    Some(set) => if pk.len() == set.verifying_key_len()
                        && sig.len() == set.signature_len()
                        && slh_accepts(set, pk, content, sig) {
                        Ok(Verdict::Valid)
                    } else {
                        Ok(Verdict::Invalid)
                    },
                },
            },
        }
    }
}

/// Checks the signature in `signature` on `content` under the key in `public`.
pub fn verify_content(
    public: &PublicKeyContainer,
    signature: &SignatureContainer,
    content: &[u8],
) -> (r: Result<Verdict, VerifyError>)
    ensures
        r == verification_outcome(*public, *signature, content@),
        r == Ok::<Verdict, VerifyError>(Verdict::Valid) <==> {
            &&& signature.file_sha256@ == hex_lower(sha256_digest(content@))
            &&& base64_decoded(public.public_key_b64@) matches Some(pk)
            &&& base64_decoded(signature.signature_b64@) matches Some(sig)
            &&& ParamSet::named(lowercased(public.param_set@)) matches Some(set)
            &&& pk.len() == set.verifying_key_len()
            &&& sig.len() == set.signature_len()
            &&& slh_accepts(set, pk, content@, sig)
        },
        r == Ok::<Verdict, VerifyError>(Verdict::HashMismatch)
            <==> signature.file_sha256@ != hex_lower(sha256_digest(content@)),
{
    let fingerprint = file_sha256_hex(content);
    if !(signature.file_sha256 == fingerprint) {
        return Ok(Verdict::HashMismatch);
    }
    let pk = match decode_base64(public.public_key_b64.as_str()) {
        Some(pk) => pk,
        None => return Err(VerifyError::PublicKeyNotBase64),
    };
    let sig = match decode_base64(signature.signature_b64.as_str()) {
        Some(sig) => sig,
        None => return Err(VerifyError::SignatureNotBase64),
    };
    let norm_param = to_lowercase(public.param_set.as_str());
    match ParamSet::from_name(norm_param.as_str()) {
        None => Ok(Verdict::Invalid),
        Some(set) => if verify_message(set, pk.as_slice(), content, sig.as_slice()) {
            Ok(Verdict::Valid)
        } else {
            Ok(Verdict::Invalid)
        },
    }
}

} // verus!
