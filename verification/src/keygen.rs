//! Key-pair generation: a fresh SLH-DSA key pair wrapped in a private and a public
//! container, and the file names the containers are stored under.

use vstd::prelude::*;
use crate::clock::{now_rfc3339, rfc3339_utc_text};
use crate::containers::{algorithm_label, algorithm_text, PrivateKeyContainer, PublicKeyContainer};
use crate::encoding::{base64_decoded, base64_text, encode_base64};
use crate::params::{get_security_category, lemma_set_names_are_lowercase, security_category, ParamSet};
use crate::slh::{generate_key_bytes, signs_for, thread_rng};
use crate::text::{ascii_text, joined, lemma_lowercased_ascii_is_fixed, lowercased, to_lowercase};

verus! {

/// The two containers of one key pair.
#[derive(Clone, Debug, PartialEq, Eq)]
pub struct KeyPair {
    pub private: PrivateKeyContainer,
    pub public: PublicKeyContainer,
}

impl KeyPair {
    /// The containers record `norm_param` (with its category), `created_at`, and the given
    /// signing key and its verifying key, consistently in both, in base64 that decodes back
    /// to the keys.
    pub open spec fn records(
        self,
        norm_param: Seq<char>,
        created_at: Seq<char>,
        signing_key: Seq<u8>,
        verifying_key: Seq<u8>,
    ) -> bool {
        &&& self.private.algorithm@ == algorithm_label()
        &&& self.private.param_set@ == norm_param
        &&& self.private.created_at@ == created_at
        &&& self.private.security_category == security_category(norm_param)
        &&& self.private.public_key_b64@ == base64_text(verifying_key)
        &&& self.private.private_key_b64@ == base64_text(signing_key)
        &&& base64_decoded(self.private.private_key_b64@) == Some(signing_key)
        &&& base64_decoded(self.private.public_key_b64@) == Some(verifying_key)
        &&& base64_decoded(self.public.public_key_b64@) == Some(verifying_key)
        &&& self.public.algorithm@ == algorithm_label()
        &&& self.public.param_set@ == norm_param
        &&& self.public.created_at@ == created_at
        &&& self.public.security_category == security_category(norm_param)
        &&& self.public.public_key_b64@ == base64_text(verifying_key)
    }

    /// The containers record a key pair of `set` that works: the signing key has the set's
    /// length, the verifying key is its public half and accepts what it signs.
    pub open spec fn holds_working_key(self, set: ParamSet, norm_param: Seq<char>, created_at: Seq<char>) -> bool {
        exists|sk: Seq<u8>|
            #![trigger base64_text(sk)]
            sk.len() == set.signing_key_len()
            && signs_for(set, sk, set.public_part(sk))
            && self.records(norm_param, created_at, sk, set.public_part(sk))
    }
}

/// Wraps a key pair, already generated for the normalized parameter-set name `norm_param`,
/// into its two containers.
pub fn assemble_key_pair(
    norm_param: &str,
    created_at: &str,
    signing_key: &[u8],
    verifying_key: &[u8],
) -> (r: KeyPair)
    ensures
        r.records(norm_param@, created_at@, signing_key@, verifying_key@),
{
    let sec_cat = get_security_category(norm_param);
    let sk_b64 = encode_base64(signing_key);
    let pk_b64 = encode_base64(verifying_key);
    let private = PrivateKeyContainer {
        algorithm: algorithm_text(),
        param_set: String::from_str(norm_param),
        created_at: String::from_str(created_at),
        security_category: sec_cat,
        public_key_b64: pk_b64.clone(),
        private_key_b64: sk_b64,
    };
    let public = PublicKeyContainer {
        algorithm: algorithm_text(),
        param_set: String::from_str(norm_param),
        created_at: String::from_str(created_at),
        security_category: sec_cat,
        public_key_b64: pk_b64,
    };
    KeyPair { private, public }
}

/// Generates a key pair for a parameter-set name. The name is lowercased; the set it
/// selects is used, SHA2-128f where it selects none; the lowercased name is recorded.
/// The key and the creation time vary from call to call; what holds of every outcome is
/// stated over the key that was drawn and the clock reading taken in this call, which
/// both containers record. Where the name is ASCII
/// or selects a set, the recorded name is its own lowercase form, so signing and
/// verifying with the containers select the set the key was made for.
pub fn generate_key_pair(param_set: &str) -> (r: KeyPair)
    ensures
        r.private.param_set@ == lowercased(param_set@),
        r.holds_working_key(
            ParamSet::named_or_default(lowercased(param_set@)),
            lowercased(param_set@),
            r.private.created_at@,
        ),
        rfc3339_utc_text(r.private.created_at@),
        exists|t: String|
            call_ensures(now_rfc3339, (), t) && r.private.created_at@ == t@ && r.public.created_at@ == t@,
        ascii_text(param_set@) || ParamSet::named(lowercased(param_set@)) is Some
            ==> lowercased(r.private.param_set@) == r.private.param_set@,
        ascii_text(param_set@) || ParamSet::named(lowercased(param_set@)) is Some
            ==> ParamSet::named_or_default(lowercased(r.private.param_set@))
                == ParamSet::named_or_default(lowercased(param_set@)),
{
    let norm_param = to_lowercase(param_set);
    let created_at = now_rfc3339();
    let set = ParamSet::from_name_or_default(norm_param.as_str());
    let mut rng = thread_rng();
    let (sk, pk) = generate_key_bytes(set, &mut rng);
    let r = assemble_key_pair(norm_param.as_str(), created_at.as_str(), sk.as_slice(), pk.as_slice());
    assert(r.holds_working_key(set, norm_param@, created_at@));
    proof {
        if ascii_text(param_set@) {
            lemma_lowercased_ascii_is_fixed(param_set@);
        } else if ParamSet::named(lowercased(param_set@)) is Some {
            lemma_set_names_are_lowercase(lowercased(param_set@));
        }
    }
    r
}

/// The name of the private-key file for a key name: `<name>_private.key`.
pub fn private_key_file_name(name: &str) -> (r: String)
    ensures
        r@ == name@ + "_private.key"@,
{
    joined(name, "_private.key")
}

/// The name of the public-key file for a key name: `<name>_public.pub`.
pub fn public_key_file_name(name: &str) -> (r: String)
    ensures
        r@ == name@ + "_public.pub"@,
{
    joined(name, "_public.pub")
}

} // verus!
