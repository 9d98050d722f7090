//! SLH-DSA key generation, signing and verification through the `slh-dsa` crate, one
//! trusted item per parameter set, and the verified dispatch that picks among them.

use vstd::prelude::*;
use crate::params::ParamSet;
use rand::rngs::ThreadRng;

verus! {

/// The random generator that key generation draws its seeds from.
#[verifier::external_type_specification]
#[verifier::external_body]
pub struct ExThreadRng(rand::rngs::ThreadRng);

/// The signature that `slh-dsa` produces with `Signer::sign` (empty context, deterministic
/// variant) for a serialized signing key of the given parameter set and a message.
pub uninterp spec fn slh_signature(set: ParamSet, signing_key: Seq<u8>, message: Seq<u8>) -> Seq<u8>;

/// Whether `slh-dsa`'s `Verifier::verify` (empty context) accepts a signature on a message
/// under a serialized verifying key of the given parameter set, both well sized.
pub uninterp spec fn slh_accepts(
    set: ParamSet,
    verifying_key: Seq<u8>,
    message: Seq<u8>,
    signature: Seq<u8>,
) -> bool;

/// Every message signed with `signing_key` is accepted under `verifying_key`.
pub open spec fn signs_for(set: ParamSet, signing_key: Seq<u8>, verifying_key: Seq<u8>) -> bool {
    forall|m: Seq<u8>|
        #![trigger slh_signature(set, signing_key, m)]
        slh_accepts(set, verifying_key, m, slh_signature(set, signing_key, m))
}

/// `rand::thread_rng`: the thread-local generator seeded by the operating system.
#[verifier::external_body]
pub(crate) fn thread_rng() -> ThreadRng {
    rand::thread_rng()
}

/// `SigningKey::<Sha2_128f>::new`, serialized with `to_vec`, with its `verifying_key`. The key is
/// random; the contract claims its length, that the verifying key is its PK.seed and
/// PK.root half (as `to_bytes` lays the fields out), and that the verifying key accepts
/// every signature the key makes (the crate documents a `VerifyingKey` as verifying
/// signatures created with the corresponding `SigningKey`).
#[verifier::external_body]
fn new_key_sha2_128f(rng: &mut ThreadRng) -> (r: (Vec<u8>, Vec<u8>))
    ensures
        r.0@.len() == ParamSet::Sha2_128f.signing_key_len(),
        r.1@ == ParamSet::Sha2_128f.public_part(r.0@),
        signs_for(ParamSet::Sha2_128f, r.0@, r.1@),
{
    let sk = slh_dsa::SigningKey::<slh_dsa::Sha2_128f>::new(rng);
    (sk.to_vec(), slh_dsa::signature::Keypair::verifying_key(&sk).to_vec())
}

/// `SigningKey::<Sha2_128f>::try_from` on the key bytes, then `Signer::sign`; `None` where
/// `try_from` fails, which the source does exactly on a length other than the key length.
/// The signature is named by `slh_signature` and has the parameter set's length.
#[verifier::external_body]
fn sign_sha2_128f(signing_key: &[u8], message: &[u8]) -> (r: Option<Vec<u8>>)
    ensures
        r is Some <==> signing_key@.len() == ParamSet::Sha2_128f.signing_key_len(),
        r matches Some(s) ==> s@ == slh_signature(ParamSet::Sha2_128f, signing_key@, message@)
            && s@.len() == ParamSet::Sha2_128f.signature_len(),
{
    match slh_dsa::SigningKey::<slh_dsa::Sha2_128f>::try_from(signing_key) {
        Ok(k) => Some(slh_dsa::signature::Signer::sign(&k, message).to_vec()),
        Err(_) => None,
    }
}

/// `VerifyingKey::<Sha2_128f>::try_from` and `Signature::<Sha2_128f>::try_from` on the bytes, then
/// `Verifier::verify`; false where either conversion fails, which the source does exactly
/// on a wrong length. The verdict is named by `slh_accepts`.
#[verifier::external_body]
fn verify_sha2_128f(verifying_key: &[u8], message: &[u8], signature: &[u8]) -> (r: bool)
    ensures
        r == (verifying_key@.len() == ParamSet::Sha2_128f.verifying_key_len()
            && signature@.len() == ParamSet::Sha2_128f.signature_len()
            && slh_accepts(ParamSet::Sha2_128f, verifying_key@, message@, signature@)),
{
    match (
        slh_dsa::VerifyingKey::<slh_dsa::Sha2_128f>::try_from(verifying_key),
        slh_dsa::Signature::<slh_dsa::Sha2_128f>::try_from(signature),
    ) {
        (Ok(k), Ok(s)) => slh_dsa::signature::Verifier::verify(&k, message, &s).is_ok(),
        _ => false,
    }
}

/// `SigningKey::<Sha2_128s>::new`, serialized with `to_vec`, with its `verifying_key`. The key is
/// random; the contract claims its length, that the verifying key is its PK.seed and
/// PK.root half (as `to_bytes` lays the fields out), and that the verifying key accepts
/// every signature the key makes (the crate documents a `VerifyingKey` as verifying
/// signatures created with the corresponding `SigningKey`).
#[verifier::external_body]
fn new_key_sha2_128s(rng: &mut ThreadRng) -> (r: (Vec<u8>, Vec<u8>))
    ensures
        r.0@.len() == ParamSet::Sha2_128s.signing_key_len(),
        r.1@ == ParamSet::Sha2_128s.public_part(r.0@),
        signs_for(ParamSet::Sha2_128s, r.0@, r.1@),
{
    let sk = slh_dsa::SigningKey::<slh_dsa::Sha2_128s>::new(rng);
    (sk.to_vec(), slh_dsa::signature::Keypair::verifying_key(&sk).to_vec())
}

/// `SigningKey::<Sha2_128s>::try_from` on the key bytes, then `Signer::sign`; `None` where
/// `try_from` fails, which the source does exactly on a length other than the key length.
/// The signature is named by `slh_signature` and has the parameter set's length.
#[verifier::external_body]
fn sign_sha2_128s(signing_key: &[u8], message: &[u8]) -> (r: Option<Vec<u8>>)
    ensures
        r is Some <==> signing_key@.len() == ParamSet::Sha2_128s.signing_key_len(),
        r matches Some(s) ==> s@ == slh_signature(ParamSet::Sha2_128s, signing_key@, message@)
            && s@.len() == ParamSet::Sha2_128s.signature_len(),
{
    match slh_dsa::SigningKey::<slh_dsa::Sha2_128s>::try_from(signing_key) {
        Ok(k) => Some(slh_dsa::signature::Signer::sign(&k, message).to_vec()),
        Err(_) => None,
    }
}

/// `VerifyingKey::<Sha2_128s>::try_from` and `Signature::<Sha2_128s>::try_from` on the bytes, then
/// `Verifier::verify`; false where either conversion fails, which the source does exactly
/// on a wrong length. The verdict is named by `slh_accepts`.
#[verifier::external_body]
fn verify_sha2_128s(verifying_key: &[u8], message: &[u8], signature: &[u8]) -> (r: bool)
    ensures
        r == (verifying_key@.len() == ParamSet::Sha2_128s.verifying_key_len()
            && signature@.len() == ParamSet::Sha2_128s.signature_len()
            && slh_accepts(ParamSet::Sha2_128s, verifying_key@, message@, signature@)),
{
    match (
        slh_dsa::VerifyingKey::<slh_dsa::Sha2_128s>::try_from(verifying_key),
        slh_dsa::Signature::<slh_dsa::Sha2_128s>::try_from(signature),
    ) {
        (Ok(k), Ok(s)) => slh_dsa::signature::Verifier::verify(&k, message, &s).is_ok(),
        _ => false,
    }
}

/// `SigningKey::<Sha2_192f>::new`, serialized with `to_vec`, with its `verifying_key`. The key is
/// random; the contract claims its length, that the verifying key is its PK.seed and
/// PK.root half (as `to_bytes` lays the fields out), and that the verifying key accepts
/// every signature the key makes (the crate documents a `VerifyingKey` as verifying
/// signatures created with the corresponding `SigningKey`).
#[verifier::external_body]
fn new_key_sha2_192f(rng: &mut ThreadRng) -> (r: (Vec<u8>, Vec<u8>))
    ensures
        r.0@.len() == ParamSet::Sha2_192f.signing_key_len(),
        r.1@ == ParamSet::Sha2_192f.public_part(r.0@),
        signs_for(ParamSet::Sha2_192f, r.0@, r.1@),
{
    let sk = slh_dsa::SigningKey::<slh_dsa::Sha2_192f>::new(rng);
    (sk.to_vec(), slh_dsa::signature::Keypair::verifying_key(&sk).to_vec())
}

/// `SigningKey::<Sha2_192f>::try_from` on the key bytes, then `Signer::sign`; `None` where
/// `try_from` fails, which the source does exactly on a length other than the key length.
/// The signature is named by `slh_signature` and has the parameter set's length.
#[verifier::external_body]
fn sign_sha2_192f(signing_key: &[u8], message: &[u8]) -> (r: Option<Vec<u8>>)
    ensures
        r is Some <==> signing_key@.len() == ParamSet::Sha2_192f.signing_key_len(),
        r matches Some(s) ==> s@ == slh_signature(ParamSet::Sha2_192f, signing_key@, message@)
            && s@.len() == ParamSet::Sha2_192f.signature_len(),
{
    match slh_dsa::SigningKey::<slh_dsa::Sha2_192f>::try_from(signing_key) {
        Ok(k) => Some(slh_dsa::signature::Signer::sign(&k, message).to_vec()),
        Err(_) => None,
    }
}

/// `VerifyingKey::<Sha2_192f>::try_from` and `Signature::<Sha2_192f>::try_from` on the bytes, then
/// `Verifier::verify`; false where either conversion fails, which the source does exactly
/// on a wrong length. The verdict is named by `slh_accepts`.
#[verifier::external_body]
fn verify_sha2_192f(verifying_key: &[u8], message: &[u8], signature: &[u8]) -> (r: bool)
    ensures
        r == (verifying_key@.len() == ParamSet::Sha2_192f.verifying_key_len()
            && signature@.len() == ParamSet::Sha2_192f.signature_len()
            && slh_accepts(ParamSet::Sha2_192f, verifying_key@, message@, signature@)),
{
    match (
        slh_dsa::VerifyingKey::<slh_dsa::Sha2_192f>::try_from(verifying_key),
        slh_dsa::Signature::<slh_dsa::Sha2_192f>::try_from(signature),
    ) {
        (Ok(k), Ok(s)) => slh_dsa::signature::Verifier::verify(&k, message, &s).is_ok(),
        _ => false,
    }
}

/// `SigningKey::<Sha2_192s>::new`, serialized with `to_vec`, with its `verifying_key`. The key is
/// random; the contract claims its length, that the verifying key is its PK.seed and
/// PK.root half (as `to_bytes` lays the fields out), and that the verifying key accepts
/// every signature the key makes (the crate documents a `VerifyingKey` as verifying
/// signatures created with the corresponding `SigningKey`).
#[verifier::external_body]
fn new_key_sha2_192s(rng: &mut ThreadRng) -> (r: (Vec<u8>, Vec<u8>))
    ensures
        r.0@.len() == ParamSet::Sha2_192s.signing_key_len(),
        r.1@ == ParamSet::Sha2_192s.public_part(r.0@),
        signs_for(ParamSet::Sha2_192s, r.0@, r.1@),
{
    let sk = slh_dsa::SigningKey::<slh_dsa::Sha2_192s>::new(rng);
    (sk.to_vec(), slh_dsa::signature::Keypair::verifying_key(&sk).to_vec())
}

/// `SigningKey::<Sha2_192s>::try_from` on the key bytes, then `Signer::sign`; `None` where
/// `try_from` fails, which the source does exactly on a length other than the key length.
/// The signature is named by `slh_signature` and has the parameter set's length.
#[verifier::external_body]
fn sign_sha2_192s(signing_key: &[u8], message: &[u8]) -> (r: Option<Vec<u8>>)
    ensures
        r is Some <==> signing_key@.len() == ParamSet::Sha2_192s.signing_key_len(),
        r matches Some(s) ==> s@ == slh_signature(ParamSet::Sha2_192s, signing_key@, message@)
            && s@.len() == ParamSet::Sha2_192s.signature_len(),
{
    match slh_dsa::SigningKey::<slh_dsa::Sha2_192s>::try_from(signing_key) {
        Ok(k) => Some(slh_dsa::signature::Signer::sign(&k, message).to_vec()),
        Err(_) => None,
    }
}

/// `VerifyingKey::<Sha2_192s>::try_from` and `Signature::<Sha2_192s>::try_from` on the bytes, then
/// `Verifier::verify`; false where either conversion fails, which the source does exactly
/// on a wrong length. The verdict is named by `slh_accepts`.
#[verifier::external_body]
fn verify_sha2_192s(verifying_key: &[u8], message: &[u8], signature: &[u8]) -> (r: bool)
    ensures
        r == (verifying_key@.len() == ParamSet::Sha2_192s.verifying_key_len()
            && signature@.len() == ParamSet::Sha2_192s.signature_len()
            && slh_accepts(ParamSet::Sha2_192s, verifying_key@, message@, signature@)),
{
    match (
        slh_dsa::VerifyingKey::<slh_dsa::Sha2_192s>::try_from(verifying_key),
        slh_dsa::Signature::<slh_dsa::Sha2_192s>::try_from(signature),
    ) {
        (Ok(k), Ok(s)) => slh_dsa::signature::Verifier::verify(&k, message, &s).is_ok(),
        _ => false,
    }
}

/// `SigningKey::<Sha2_256f>::new`, serialized with `to_vec`, with its `verifying_key`. The key is
/// random; the contract claims its length, that the verifying key is its PK.seed and
/// PK.root half (as `to_bytes` lays the fields out), and that the verifying key accepts
/// every signature the key makes (the crate documents a `VerifyingKey` as verifying
/// signatures created with the corresponding `SigningKey`).
#[verifier::external_body]
fn new_key_sha2_256f(rng: &mut ThreadRng) -> (r: (Vec<u8>, Vec<u8>))
    ensures
        r.0@.len() == ParamSet::Sha2_256f.signing_key_len(),
        r.1@ == ParamSet::Sha2_256f.public_part(r.0@),
        signs_for(ParamSet::Sha2_256f, r.0@, r.1@),
{
    let sk = slh_dsa::SigningKey::<slh_dsa::Sha2_256f>::new(rng);
    (sk.to_vec(), slh_dsa::signature::Keypair::verifying_key(&sk).to_vec())
}

/// `SigningKey::<Sha2_256f>::try_from` on the key bytes, then `Signer::sign`; `None` where
/// `try_from` fails, which the source does exactly on a length other than the key length.
/// The signature is named by `slh_signature` and has the parameter set's length.
#[verifier::external_body]
fn sign_sha2_256f(signing_key: &[u8], message: &[u8]) -> (r: Option<Vec<u8>>)
    ensures
        r is Some <==> signing_key@.len() == ParamSet::Sha2_256f.signing_key_len(),
        r matches Some(s) ==> s@ == slh_signature(ParamSet::Sha2_256f, signing_key@, message@)
            && s@.len() == ParamSet::Sha2_256f.signature_len(),
{
    match slh_dsa::SigningKey::<slh_dsa::Sha2_256f>::try_from(signing_key) {
        Ok(k) => Some(slh_dsa::signature::Signer::sign(&k, message).to_vec()),
        Err(_) => None,
    }
}

/// `VerifyingKey::<Sha2_256f>::try_from` and `Signature::<Sha2_256f>::try_from` on the bytes, then
/// `Verifier::verify`; false where either conversion fails, which the source does exactly
/// on a wrong length. The verdict is named by `slh_accepts`.
#[verifier::external_body]
fn verify_sha2_256f(verifying_key: &[u8], message: &[u8], signature: &[u8]) -> (r: bool)
    ensures
        r == (verifying_key@.len() == ParamSet::Sha2_256f.verifying_key_len()
            && signature@.len() == ParamSet::Sha2_256f.signature_len()
            && slh_accepts(ParamSet::Sha2_256f, verifying_key@, message@, signature@)),
{
    match (
        slh_dsa::VerifyingKey::<slh_dsa::Sha2_256f>::try_from(verifying_key),
        slh_dsa::Signature::<slh_dsa::Sha2_256f>::try_from(signature),
    ) {
        (Ok(k), Ok(s)) => slh_dsa::signature::Verifier::verify(&k, message, &s).is_ok(),
        _ => false,
    }
}

/// `SigningKey::<Sha2_256s>::new`, serialized with `to_vec`, with its `verifying_key`. The key is
/// random; the contract claims its length, that the verifying key is its PK.seed and
/// PK.root half (as `to_bytes` lays the fields out), and that the verifying key accepts
/// every signature the key makes (the crate documents a `VerifyingKey` as verifying
/// signatures created with the corresponding `SigningKey`).
#[verifier::external_body]
fn new_key_sha2_256s(rng: &mut ThreadRng) -> (r: (Vec<u8>, Vec<u8>))
    ensures
        r.0@.len() == ParamSet::Sha2_256s.signing_key_len(),
        r.1@ == ParamSet::Sha2_256s.public_part(r.0@),
        signs_for(ParamSet::Sha2_256s, r.0@, r.1@),
{
    let sk = slh_dsa::SigningKey::<slh_dsa::Sha2_256s>::new(rng);
    (sk.to_vec(), slh_dsa::signature::Keypair::verifying_key(&sk).to_vec())
}

/// `SigningKey::<Sha2_256s>::try_from` on the key bytes, then `Signer::sign`; `None` where
/// `try_from` fails, which the source does exactly on a length other than the key length.
/// The signature is named by `slh_signature` and has the parameter set's length.
#[verifier::external_body]
fn sign_sha2_256s(signing_key: &[u8], message: &[u8]) -> (r: Option<Vec<u8>>)
    ensures
        r is Some <==> signing_key@.len() == ParamSet::Sha2_256s.signing_key_len(),
        r matches Some(s) ==> s@ == slh_signature(ParamSet::Sha2_256s, signing_key@, message@)
            && s@.len() == ParamSet::Sha2_256s.signature_len(),
{
    match slh_dsa::SigningKey::<slh_dsa::Sha2_256s>::try_from(signing_key) {
        Ok(k) => Some(slh_dsa::signature::Signer::sign(&k, message).to_vec()),
        Err(_) => None,
    }
}

/// `VerifyingKey::<Sha2_256s>::try_from` and `Signature::<Sha2_256s>::try_from` on the bytes, then
/// `Verifier::verify`; false where either conversion fails, which the source does exactly
/// on a wrong length. The verdict is named by `slh_accepts`.
#[verifier::external_body]
fn verify_sha2_256s(verifying_key: &[u8], message: &[u8], signature: &[u8]) -> (r: bool)
    ensures
        r == (verifying_key@.len() == ParamSet::Sha2_256s.verifying_key_len()
            && signature@.len() == ParamSet::Sha2_256s.signature_len()
            && slh_accepts(ParamSet::Sha2_256s, verifying_key@, message@, signature@)),
{
    match (
        slh_dsa::VerifyingKey::<slh_dsa::Sha2_256s>::try_from(verifying_key),
        slh_dsa::Signature::<slh_dsa::Sha2_256s>::try_from(signature),
    ) {
        (Ok(k), Ok(s)) => slh_dsa::signature::Verifier::verify(&k, message, &s).is_ok(),
        _ => false,
    }
}

/// `SigningKey::<Shake128f>::new`, serialized with `to_vec`, with its `verifying_key`. The key is
/// random; the contract claims its length, that the verifying key is its PK.seed and
/// PK.root half (as `to_bytes` lays the fields out), and that the verifying key accepts
/// every signature the key makes (the crate documents a `VerifyingKey` as verifying
/// signatures created with the corresponding `SigningKey`).
#[verifier::external_body]
fn new_key_shake128f(rng: &mut ThreadRng) -> (r: (Vec<u8>, Vec<u8>))
    ensures
        r.0@.len() == ParamSet::Shake128f.signing_key_len(),
        r.1@ == ParamSet::Shake128f.public_part(r.0@),
        signs_for(ParamSet::Shake128f, r.0@, r.1@),
{
    let sk = slh_dsa::SigningKey::<slh_dsa::Shake128f>::new(rng);
    (sk.to_vec(), slh_dsa::signature::Keypair::verifying_key(&sk).to_vec())
}

/// `SigningKey::<Shake128f>::try_from` on the key bytes, then `Signer::sign`; `None` where
/// `try_from` fails, which the source does exactly on a length other than the key length.
/// The signature is named by `slh_signature` and has the parameter set's length.
#[verifier::external_body]
fn sign_shake128f(signing_key: &[u8], message: &[u8]) -> (r: Option<Vec<u8>>)
    ensures
        r is Some <==> signing_key@.len() == ParamSet::Shake128f.signing_key_len(),
        r matches Some(s) ==> s@ == slh_signature(ParamSet::Shake128f, signing_key@, message@)
            && s@.len() == ParamSet::Shake128f.signature_len(),
{
    match slh_dsa::SigningKey::<slh_dsa::Shake128f>::try_from(signing_key) {
        Ok(k) => Some(slh_dsa::signature::Signer::sign(&k, message).to_vec()),
        Err(_) => None,
    }
}

/// `VerifyingKey::<Shake128f>::try_from` and `Signature::<Shake128f>::try_from` on the bytes, then
/// `Verifier::verify`; false where either conversion fails, which the source does exactly
/// on a wrong length. The verdict is named by `slh_accepts`.
#[verifier::external_body]
fn verify_shake128f(verifying_key: &[u8], message: &[u8], signature: &[u8]) -> (r: bool)
    ensures
        r == (verifying_key@.len() == ParamSet::Shake128f.verifying_key_len()
            && signature@.len() == ParamSet::Shake128f.signature_len()
            && slh_accepts(ParamSet::Shake128f, verifying_key@, message@, signature@)),
{
    match (
        slh_dsa::VerifyingKey::<slh_dsa::Shake128f>::try_from(verifying_key),
        slh_dsa::Signature::<slh_dsa::Shake128f>::try_from(signature),
    ) {
        (Ok(k), Ok(s)) => slh_dsa::signature::Verifier::verify(&k, message, &s).is_ok(),
        _ => false,
    }
}

/// `SigningKey::<Shake128s>::new`, serialized with `to_vec`, with its `verifying_key`. The key is
/// random; the contract claims its length, that the verifying key is its PK.seed and
/// PK.root half (as `to_bytes` lays the fields out), and that the verifying key accepts
/// every signature the key makes (the crate documents a `VerifyingKey` as verifying
/// signatures created with the corresponding `SigningKey`).
#[verifier::external_body]
fn new_key_shake128s(rng: &mut ThreadRng) -> (r: (Vec<u8>, Vec<u8>))
    ensures
        r.0@.len() == ParamSet::Shake128s.signing_key_len(),
        r.1@ == ParamSet::Shake128s.public_part(r.0@),
        signs_for(ParamSet::Shake128s, r.0@, r.1@),
{
    let sk = slh_dsa::SigningKey::<slh_dsa::Shake128s>::new(rng);
    (sk.to_vec(), slh_dsa::signature::Keypair::verifying_key(&sk).to_vec())
}

/// `SigningKey::<Shake128s>::try_from` on the key bytes, then `Signer::sign`; `None` where
/// `try_from` fails, which the source does exactly on a length other than the key length.
/// The signature is named by `slh_signature` and has the parameter set's length.
#[verifier::external_body]
fn sign_shake128s(signing_key: &[u8], message: &[u8]) -> (r: Option<Vec<u8>>)
    ensures
        r is Some <==> signing_key@.len() == ParamSet::Shake128s.signing_key_len(),
        r matches Some(s) ==> s@ == slh_signature(ParamSet::Shake128s, signing_key@, message@)
            && s@.len() == ParamSet::Shake128s.signature_len(),
{
    match slh_dsa::SigningKey::<slh_dsa::Shake128s>::try_from(signing_key) {
        Ok(k) => Some(slh_dsa::signature::Signer::sign(&k, message).to_vec()),
        Err(_) => None,
    }
}

/// `VerifyingKey::<Shake128s>::try_from` and `Signature::<Shake128s>::try_from` on the bytes, then
/// `Verifier::verify`; false where either conversion fails, which the source does exactly
/// on a wrong length. The verdict is named by `slh_accepts`.
#[verifier::external_body]
fn verify_shake128s(verifying_key: &[u8], message: &[u8], signature: &[u8]) -> (r: bool)
    ensures
        r == (verifying_key@.len() == ParamSet::Shake128s.verifying_key_len()
            && signature@.len() == ParamSet::Shake128s.signature_len()
            && slh_accepts(ParamSet::Shake128s, verifying_key@, message@, signature@)),
{
    match (
        slh_dsa::VerifyingKey::<slh_dsa::Shake128s>::try_from(verifying_key),
        slh_dsa::Signature::<slh_dsa::Shake128s>::try_from(signature),
    ) {
        (Ok(k), Ok(s)) => slh_dsa::signature::Verifier::verify(&k, message, &s).is_ok(),
        _ => false,
    }
}

/// `SigningKey::<Shake192f>::new`, serialized with `to_vec`, with its `verifying_key`. The key is
/// random; the contract claims its length, that the verifying key is its PK.seed and
/// PK.root half (as `to_bytes` lays the fields out), and that the verifying key accepts
/// every signature the key makes (the crate documents a `VerifyingKey` as verifying
/// signatures created with the corresponding `SigningKey`).
#[verifier::external_body]
fn new_key_shake192f(rng: &mut ThreadRng) -> (r: (Vec<u8>, Vec<u8>))
    ensures
        r.0@.len() == ParamSet::Shake192f.signing_key_len(),
        r.1@ == ParamSet::Shake192f.public_part(r.0@),
        signs_for(ParamSet::Shake192f, r.0@, r.1@),
{
    let sk = slh_dsa::SigningKey::<slh_dsa::Shake192f>::new(rng);
    (sk.to_vec(), slh_dsa::signature::Keypair::verifying_key(&sk).to_vec())
}

/// `SigningKey::<Shake192f>::try_from` on the key bytes, then `Signer::sign`; `None` where
/// `try_from` fails, which the source does exactly on a length other than the key length.
/// The signature is named by `slh_signature` and has the parameter set's length.
#[verifier::external_body]
fn sign_shake192f(signing_key: &[u8], message: &[u8]) -> (r: Option<Vec<u8>>)
    ensures
        r is Some <==> signing_key@.len() == ParamSet::Shake192f.signing_key_len(),
        r matches Some(s) ==> s@ == slh_signature(ParamSet::Shake192f, signing_key@, message@)
            && s@.len() == ParamSet::Shake192f.signature_len(),
{
    match slh_dsa::SigningKey::<slh_dsa::Shake192f>::try_from(signing_key) {
        Ok(k) => Some(slh_dsa::signature::Signer::sign(&k, message).to_vec()),
        Err(_) => None,
    }
}

/// `VerifyingKey::<Shake192f>::try_from` and `Signature::<Shake192f>::try_from` on the bytes, then
/// `Verifier::verify`; false where either conversion fails, which the source does exactly
/// on a wrong length. The verdict is named by `slh_accepts`.
#[verifier::external_body]
fn verify_shake192f(verifying_key: &[u8], message: &[u8], signature: &[u8]) -> (r: bool)
    ensures
        r == (verifying_key@.len() == ParamSet::Shake192f.verifying_key_len()
            && signature@.len() == ParamSet::Shake192f.signature_len()
            && slh_accepts(ParamSet::Shake192f, verifying_key@, message@, signature@)),
{
    match (
        slh_dsa::VerifyingKey::<slh_dsa::Shake192f>::try_from(verifying_key),
        slh_dsa::Signature::<slh_dsa::Shake192f>::try_from(signature),
    ) {
        (Ok(k), Ok(s)) => slh_dsa::signature::Verifier::verify(&k, message, &s).is_ok(),
        _ => false,
    }
}

/// `SigningKey::<Shake192s>::new`, serialized with `to_vec`, with its `verifying_key`. The key is
/// random; the contract claims its length, that the verifying key is its PK.seed and
/// PK.root half (as `to_bytes` lays the fields out), and that the verifying key accepts
/// every signature the key makes (the crate documents a `VerifyingKey` as verifying
/// signatures created with the corresponding `SigningKey`).
#[verifier::external_body]
fn new_key_shake192s(rng: &mut ThreadRng) -> (r: (Vec<u8>, Vec<u8>))
    ensures
        r.0@.len() == ParamSet::Shake192s.signing_key_len(),
        r.1@ == ParamSet::Shake192s.public_part(r.0@),
        signs_for(ParamSet::Shake192s, r.0@, r.1@),
{
    let sk = slh_dsa::SigningKey::<slh_dsa::Shake192s>::new(rng);
    (sk.to_vec(), slh_dsa::signature::Keypair::verifying_key(&sk).to_vec())
}

/// `SigningKey::<Shake192s>::try_from` on the key bytes, then `Signer::sign`; `None` where
/// `try_from` fails, which the source does exactly on a length other than the key length.
/// The signature is named by `slh_signature` and has the parameter set's length.
#[verifier::external_body]
fn sign_shake192s(signing_key: &[u8], message: &[u8]) -> (r: Option<Vec<u8>>)
    ensures
        r is Some <==> signing_key@.len() == ParamSet::Shake192s.signing_key_len(),
        r matches Some(s) ==> s@ == slh_signature(ParamSet::Shake192s, signing_key@, message@)
            && s@.len() == ParamSet::Shake192s.signature_len(),
{
    match slh_dsa::SigningKey::<slh_dsa::Shake192s>::try_from(signing_key) {
        Ok(k) => Some(slh_dsa::signature::Signer::sign(&k, message).to_vec()),
        Err(_) => None,
    }
}

/// `VerifyingKey::<Shake192s>::try_from` and `Signature::<Shake192s>::try_from` on the bytes, then
/// `Verifier::verify`; false where either conversion fails, which the source does exactly
/// on a wrong length. The verdict is named by `slh_accepts`.
#[verifier::external_body]
fn verify_shake192s(verifying_key: &[u8], message: &[u8], signature: &[u8]) -> (r: bool)
    ensures
        r == (verifying_key@.len() == ParamSet::Shake192s.verifying_key_len()
            && signature@.len() == ParamSet::Shake192s.signature_len()
            && slh_accepts(ParamSet::Shake192s, verifying_key@, message@, signature@)),
{
    match (
        slh_dsa::VerifyingKey::<slh_dsa::Shake192s>::try_from(verifying_key),
        slh_dsa::Signature::<slh_dsa::Shake192s>::try_from(signature),
    ) {
        (Ok(k), Ok(s)) => slh_dsa::signature::Verifier::verify(&k, message, &s).is_ok(),
        _ => false,
    }
}

/// `SigningKey::<Shake256f>::new`, serialized with `to_vec`, with its `verifying_key`. The key is
/// random; the contract claims its length, that the verifying key is its PK.seed and
/// PK.root half (as `to_bytes` lays the fields out), and that the verifying key accepts
/// every signature the key makes (the crate documents a `VerifyingKey` as verifying
/// signatures created with the corresponding `SigningKey`).
#[verifier::external_body]
fn new_key_shake256f(rng: &mut ThreadRng) -> (r: (Vec<u8>, Vec<u8>))
    ensures
        r.0@.len() == ParamSet::Shake256f.signing_key_len(),
        r.1@ == ParamSet::Shake256f.public_part(r.0@),
        signs_for(ParamSet::Shake256f, r.0@, r.1@),
{
    let sk = slh_dsa::SigningKey::<slh_dsa::Shake256f>::new(rng);
    (sk.to_vec(), slh_dsa::signature::Keypair::verifying_key(&sk).to_vec())
}

/// `SigningKey::<Shake256f>::try_from` on the key bytes, then `Signer::sign`; `None` where
/// `try_from` fails, which the source does exactly on a length other than the key length.
/// The signature is named by `slh_signature` and has the parameter set's length.
#[verifier::external_body]
fn sign_shake256f(signing_key: &[u8], message: &[u8]) -> (r: Option<Vec<u8>>)
    ensures
        r is Some <==> signing_key@.len() == ParamSet::Shake256f.signing_key_len(),
        r matches Some(s) ==> s@ == slh_signature(ParamSet::Shake256f, signing_key@, message@)
            && s@.len() == ParamSet::Shake256f.signature_len(),
{
    match slh_dsa::SigningKey::<slh_dsa::Shake256f>::try_from(signing_key) {
        Ok(k) => Some(slh_dsa::signature::Signer::sign(&k, message).to_vec()),
        Err(_) => None,
    }
}

/// `VerifyingKey::<Shake256f>::try_from` and `Signature::<Shake256f>::try_from` on the bytes, then
/// `Verifier::verify`; false where either conversion fails, which the source does exactly
/// on a wrong length. The verdict is named by `slh_accepts`.
#[verifier::external_body]
fn verify_shake256f(verifying_key: &[u8], message: &[u8], signature: &[u8]) -> (r: bool)
    ensures
        r == (verifying_key@.len() == ParamSet::Shake256f.verifying_key_len()
            && signature@.len() == ParamSet::Shake256f.signature_len()
            && slh_accepts(ParamSet::Shake256f, verifying_key@, message@, signature@)),
{
    match (
        slh_dsa::VerifyingKey::<slh_dsa::Shake256f>::try_from(verifying_key),
        slh_dsa::Signature::<slh_dsa::Shake256f>::try_from(signature),
    ) {
        (Ok(k), Ok(s)) => slh_dsa::signature::Verifier::verify(&k, message, &s).is_ok(),
        _ => false,
    }
}

/// `SigningKey::<Shake256s>::new`, serialized with `to_vec`, with its `verifying_key`. The key is
/// random; the contract claims its length, that the verifying key is its PK.seed and
/// PK.root half (as `to_bytes` lays the fields out), and that the verifying key accepts
/// every signature the key makes (the crate documents a `VerifyingKey` as verifying
/// signatures created with the corresponding `SigningKey`).
#[verifier::external_body]
fn new_key_shake256s(rng: &mut ThreadRng) -> (r: (Vec<u8>, Vec<u8>))
    ensures
        r.0@.len() == ParamSet::Shake256s.signing_key_len(),
        r.1@ == ParamSet::Shake256s.public_part(r.0@),
        signs_for(ParamSet::Shake256s, r.0@, r.1@),
{
    let sk = slh_dsa::SigningKey::<slh_dsa::Shake256s>::new(rng);
    (sk.to_vec(), slh_dsa::signature::Keypair::verifying_key(&sk).to_vec())
}

/// `SigningKey::<Shake256s>::try_from` on the key bytes, then `Signer::sign`; `None` where
/// `try_from` fails, which the source does exactly on a length other than the key length.
/// The signature is named by `slh_signature` and has the parameter set's length.
#[verifier::external_body]
fn sign_shake256s(signing_key: &[u8], message: &[u8]) -> (r: Option<Vec<u8>>)
    ensures
        r is Some <==> signing_key@.len() == ParamSet::Shake256s.signing_key_len(),
        r matches Some(s) ==> s@ == slh_signature(ParamSet::Shake256s, signing_key@, message@)
            && s@.len() == ParamSet::Shake256s.signature_len(),
{
    match slh_dsa::SigningKey::<slh_dsa::Shake256s>::try_from(signing_key) {
        Ok(k) => Some(slh_dsa::signature::Signer::sign(&k, message).to_vec()),
        Err(_) => None,
    }
}

/// `VerifyingKey::<Shake256s>::try_from` and `Signature::<Shake256s>::try_from` on the bytes, then
/// `Verifier::verify`; false where either conversion fails, which the source does exactly
/// on a wrong length. The verdict is named by `slh_accepts`.
#[verifier::external_body]
fn verify_shake256s(verifying_key: &[u8], message: &[u8], signature: &[u8]) -> (r: bool)
    ensures
        r == (verifying_key@.len() == ParamSet::Shake256s.verifying_key_len()
            && signature@.len() == ParamSet::Shake256s.signature_len()
            && slh_accepts(ParamSet::Shake256s, verifying_key@, message@, signature@)),
{
    match (
        slh_dsa::VerifyingKey::<slh_dsa::Shake256s>::try_from(verifying_key),
        slh_dsa::Signature::<slh_dsa::Shake256s>::try_from(signature),
    ) {
        (Ok(k), Ok(s)) => slh_dsa::signature::Verifier::verify(&k, message, &s).is_ok(),
        _ => false,
    }
}

/// Generates a fresh key pair of a parameter set. The keys are random; what holds of every
/// outcome: the signing key has the set's length, the verifying key is its public half,
/// and the verifying key accepts every signature the signing key makes.
pub(crate) fn generate_key_bytes(set: ParamSet, rng: &mut ThreadRng) -> (r: (Vec<u8>, Vec<u8>))
    ensures
        r.0@.len() == set.signing_key_len(),
        r.1@ == set.public_part(r.0@),
        signs_for(set, r.0@, r.1@),
{
    match set {
        ParamSet::Sha2_128f => new_key_sha2_128f(rng),
        ParamSet::Sha2_128s => new_key_sha2_128s(rng),
        ParamSet::Sha2_192f => new_key_sha2_192f(rng),
        ParamSet::Sha2_192s => new_key_sha2_192s(rng),
        ParamSet::Sha2_256f => new_key_sha2_256f(rng),
        ParamSet::Sha2_256s => new_key_sha2_256s(rng),
        ParamSet::Shake128f => new_key_shake128f(rng),
        ParamSet::Shake128s => new_key_shake128s(rng),
        ParamSet::Shake192f => new_key_shake192f(rng),
        ParamSet::Shake192s => new_key_shake192s(rng),
        ParamSet::Shake256f => new_key_shake256f(rng),
        ParamSet::Shake256s => new_key_shake256s(rng),
    }
}

/// Signs a message with a serialized signing key of a parameter set: `None` exactly when the
/// key does not have the set's length, else the scheme's signature.
pub fn sign_message(set: ParamSet, signing_key: &[u8], message: &[u8]) -> (r: Option<Vec<u8>>)
    ensures
        r is Some <==> signing_key@.len() == set.signing_key_len(),
        r matches Some(s) ==> s@ == slh_signature(set, signing_key@, message@)
            && s@.len() == set.signature_len(),
{
    match set {
        ParamSet::Sha2_128f => sign_sha2_128f(signing_key, message),
        ParamSet::Sha2_128s => sign_sha2_128s(signing_key, message),
        ParamSet::Sha2_192f => sign_sha2_192f(signing_key, message),
        ParamSet::Sha2_192s => sign_sha2_192s(signing_key, message),
        ParamSet::Sha2_256f => sign_sha2_256f(signing_key, message),
        ParamSet::Sha2_256s => sign_sha2_256s(signing_key, message),
        ParamSet::Shake128f => sign_shake128f(signing_key, message),
        ParamSet::Shake128s => sign_shake128s(signing_key, message),
        ParamSet::Shake192f => sign_shake192f(signing_key, message),
        ParamSet::Shake192s => sign_shake192s(signing_key, message),
        ParamSet::Shake256f => sign_shake256f(signing_key, message),
        ParamSet::Shake256s => sign_shake256s(signing_key, message),
    }
}

/// Checks a signature on a message under a serialized verifying key of a parameter set:
/// true exactly when both have the set's lengths and the scheme accepts.
pub fn verify_message(set: ParamSet, verifying_key: &[u8], message: &[u8], signature: &[u8]) -> (r: bool)
    ensures
        r == (verifying_key@.len() == set.verifying_key_len()
            && signature@.len() == set.signature_len()
            && slh_accepts(set, verifying_key@, message@, signature@)),
{
    match set {
        ParamSet::Sha2_128f => verify_sha2_128f(verifying_key, message, signature),
        ParamSet::Sha2_128s => verify_sha2_128s(verifying_key, message, signature),
        ParamSet::Sha2_192f => verify_sha2_192f(verifying_key, message, signature),
        ParamSet::Sha2_192s => verify_sha2_192s(verifying_key, message, signature),
        ParamSet::Sha2_256f => verify_sha2_256f(verifying_key, message, signature),
        ParamSet::Sha2_256s => verify_sha2_256s(verifying_key, message, signature),
        ParamSet::Shake128f => verify_shake128f(verifying_key, message, signature),
        ParamSet::Shake128s => verify_shake128s(verifying_key, message, signature),
        ParamSet::Shake192f => verify_shake192f(verifying_key, message, signature),
        ParamSet::Shake192s => verify_shake192s(verifying_key, message, signature),
        ParamSet::Shake256f => verify_shake256f(verifying_key, message, signature),
        ParamSet::Shake256s => verify_shake256s(verifying_key, message, signature),
    }
}

} // verus!
