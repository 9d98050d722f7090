//! Properties that span several operations of the library.

use vstd::prelude::*;
use crate::clock::{compact_timestamp_text, now_compact, now_rfc3339, rfc3339_utc_text};
use crate::destroy::{random_overwrite, reported_by_random_source, Overwrite};
use crate::containers::{PrivateKeyContainer, PublicKeyContainer, SignatureContainer};
use crate::digest::{file_fingerprint, sha256_digest};
use crate::encoding::{base64_decoded, base64_text, hex_lower};
use crate::export::{export_lines, pem_begin, pem_end};
use crate::keygen::{generate_key_pair, KeyPair};
use crate::params::{lemma_set_names_are_lowercase, security_category, ParamSet};
use crate::rotate::{plan_rotation, rotated_key_name, RotationPlan};
use crate::signing::{sign_content, sign_file, signs_as, SignError};
use crate::text::lowercased;
use crate::slh::{signs_for, slh_accepts, slh_signature};
use crate::verifying::{verification_outcome, verify_content, Verdict, VerifyError};

verus! {

/// A key pair that holds a working key of the parameter set its recorded name selects
/// signs any file, and the signature verifies as valid for that file under the pair's
/// public container.
pub proof fn lemma_signed_file_verifies(
    keys: KeyPair,
    set: ParamSet,
    norm_param: Seq<char>,
    created_at: Seq<char>,
    content: Seq<u8>,
    file_name: Seq<char>,
    signed: Result<SignatureContainer, SignError>,
)
    requires
        keys.holds_working_key(set, norm_param, created_at),
        ParamSet::named(lowercased(norm_param)) == Some(set),
        signs_as(keys.private, content, file_name, signed),
    ensures
        signed is Ok,
        verification_outcome(keys.public, signed->Ok_0, content) == Ok::<Verdict, VerifyError>(Verdict::Valid),
{
    // the signing key the containers record
    let sk = choose|sk: Seq<u8>|
        #![trigger base64_text(sk)]
        sk.len() == set.signing_key_len()
        && signs_for(set, sk, set.public_part(sk))
        && keys.records(norm_param, created_at, sk, set.public_part(sk));
    assert(slh_accepts(set, set.public_part(sk), content, slh_signature(set, sk, content)));
}

/// The README's workflow: a key pair generated for a name that selects a parameter set
/// (after lowercasing) signs any file, and that signature verifies as valid for the file
/// under the pair's public container. The hypotheses on `keys` are what
/// `generate_key_pair(param_set)` ensures.
pub proof fn lemma_generated_pair_signs_and_verifies(
    param_set: Seq<char>,
    keys: KeyPair,
    content: Seq<u8>,
    file_name: Seq<char>,
    signed: Result<SignatureContainer, SignError>,
)
    requires
        keys.holds_working_key(
            ParamSet::named_or_default(lowercased(param_set)),
            lowercased(param_set),
            keys.private.created_at@,
        ),
        ParamSet::named(lowercased(param_set)) is Some,
        signs_as(keys.private, content, file_name, signed),
    ensures
        signed is Ok,
        verification_outcome(keys.public, signed->Ok_0, content) == Ok::<Verdict, VerifyError>(Verdict::Valid),
{
    lemma_set_names_are_lowercase(lowercased(param_set));
    lemma_signed_file_verifies(
        keys,
        ParamSet::named_or_default(lowercased(param_set)),
        lowercased(param_set),
        keys.private.created_at@,
        content,
        file_name,
        signed,
    );
}

/// A signature container records the fingerprint of what was signed: checking it against
/// the same contents never reports a fingerprint mismatch, and checking it against
/// contents with another fingerprint always does.
pub proof fn lemma_fingerprint_guards_content(
    private: PrivateKeyContainer,
    public: PublicKeyContainer,
    content: Seq<u8>,
    other: Seq<u8>,
    file_name: Seq<char>,
    signed: Result<SignatureContainer, SignError>,
)
    requires
        signs_as(private, content, file_name, signed),
        signed is Ok,
    ensures
        verification_outcome(public, signed->Ok_0, content) != Ok::<Verdict, VerifyError>(Verdict::HashMismatch),
        file_fingerprint(other) != file_fingerprint(content) ==> verification_outcome(public, signed->Ok_0, other)
            == Ok::<Verdict, VerifyError>(Verdict::HashMismatch),
{
}

/// Signing is deterministic: the same key signing the same contents twice records the
/// same fingerprint and the same signature.
pub proof fn lemma_signing_is_deterministic(
    private: PrivateKeyContainer,
    content: Seq<u8>,
    file_name: Seq<char>,
    first: Result<SignatureContainer, SignError>,
    second: Result<SignatureContainer, SignError>,
)
    requires
        signs_as(private, content, file_name, first),
        signs_as(private, content, file_name, second),
    ensures
        first is Ok <==> second is Ok,
        first is Err ==> first == second,
        first is Ok ==> first->Ok_0.signature_b64@ == second->Ok_0.signature_b64@
            && first->Ok_0.file_sha256@ == second->Ok_0.file_sha256@,
{
}

/// The two containers of a generated key pair agree on algorithm, parameter set, creation
/// time, security category and public key, and the category is the one the recorded
/// parameter-set name announces.
pub proof fn lemma_key_pair_containers_agree(
    keys: KeyPair,
    set: ParamSet,
    norm_param: Seq<char>,
    created_at: Seq<char>,
)
    requires
        keys.holds_working_key(set, norm_param, created_at),
    ensures
        keys.private.algorithm@ == keys.public.algorithm@,
        keys.private.param_set@ == keys.public.param_set@,
        keys.private.created_at@ == keys.public.created_at@,
        keys.private.security_category == keys.public.security_category,
        keys.private.public_key_b64@ == keys.public.public_key_b64@,
        keys.public.security_category == security_category(keys.public.param_set@),
{
}

/// Exporting the public key of a key pair gives, as hex, the hex of the very verifying
/// key the pair records, and as PEM that key's base64 text between the armour lines.
pub proof fn lemma_export_shows_recorded_key(
    keys: KeyPair,
    norm_param: Seq<char>,
    created_at: Seq<char>,
    signing_key: Seq<u8>,
    verifying_key: Seq<u8>,
    format: Seq<char>,
)
    requires
        keys.records(norm_param, created_at, signing_key, verifying_key),
    ensures
        base64_decoded(keys.public.public_key_b64@) == Some(verifying_key),
        lowercased(format) == "hex"@ ==> export_lines(keys.public.public_key_b64@, verifying_key, format)
            == seq![hex_lower(verifying_key)],
        lowercased(format) == "pem"@ ==> export_lines(keys.public.public_key_b64@, verifying_key, format)
            == seq![pem_begin(), base64_text(verifying_key), pem_end()],
{
    reveal_strlit("hex");
    reveal_strlit("pem");
    assert("hex"@[0] != "pem"@[0]);
}

/// A rotation regenerates for the archived key's parameter-set name: the new pair records
/// that name lowercased, with the category it announces, and uses the set it selects.
/// Where the archived name is already in lowercase form and carries its own category (as
/// a generated container does), the new pair records the same name and category.
pub proof fn lemma_rotation_keeps_parameter_set(
    old: PrivateKeyContainer,
    plan: RotationPlan,
    keys: KeyPair,
    created_at: Seq<char>,
)
    requires
        plan.param_set@ == old.param_set@,
        keys.holds_working_key(
            ParamSet::named_or_default(lowercased(plan.param_set@)),
            lowercased(plan.param_set@),
            created_at,
        ),
    ensures
        keys.private.param_set@ == lowercased(old.param_set@),
        keys.public.param_set@ == lowercased(old.param_set@),
        keys.private.security_category == security_category(lowercased(old.param_set@)),
        lowercased(old.param_set@) == old.param_set@ && old.security_category == security_category(old.param_set@)
            ==> keys.private.param_set@ == old.param_set@
                && keys.private.security_category == old.security_category,
{
}

/// Signing signs the file's own bytes: whatever `sign_content` returns on a private
/// container whose key decodes to `sk`, a successful result holds the scheme's signature
/// of exactly `content` (not of a digest or anything else), made with `sk` under the set
/// the container's lowercased name selects, and it records the SHA-256 fingerprint of
/// `content`. A key of the set's length always signs.
pub proof fn lemma_signature_covers_the_file_bytes(
    private: &PrivateKeyContainer,
    content: &[u8],
    file_name: &str,
    signed_at: &str,
    r: Result<SignatureContainer, SignError>,
    sk: Seq<u8>,
)
    requires
        call_ensures(sign_content, (private, content, file_name, signed_at), r),
        base64_decoded(private.private_key_b64@) == Some(sk),
    ensures
        sk.len() == ParamSet::named_or_default(lowercased(private.param_set@)).signing_key_len()
            ==> r is Ok,
        r is Ok ==> base64_decoded(r->Ok_0.signature_b64@) == Some(
            slh_signature(ParamSet::named_or_default(lowercased(private.param_set@)), sk, content@),
        ),
        r is Ok ==> r->Ok_0.file_sha256@ == hex_lower(sha256_digest(content@)),
        r is Ok ==> r->Ok_0.file_name@ == file_name@ && r->Ok_0.signed_at@ == signed_at@,
{
}

/// Verification answers what the scheme answers on the file's own bytes: whatever
/// `verify_content` returns, it is Valid exactly when the recorded fingerprint is the
/// file's, both texts decode, the public container names a parameter set, the key and
/// signature have that set's lengths, and the scheme accepts the signature on `content`
/// under the key, for every parameter set; and it is a fingerprint mismatch exactly when
/// the recorded fingerprint is not the file's.
pub proof fn lemma_valid_means_the_scheme_accepts_the_file(
    public: &PublicKeyContainer,
    signature: &SignatureContainer,
    content: &[u8],
    v: Result<Verdict, VerifyError>,
)
    requires
        call_ensures(verify_content, (public, signature, content), v),
    ensures
        v == Ok::<Verdict, VerifyError>(Verdict::Valid) <==> {
            &&& signature.file_sha256@ == hex_lower(sha256_digest(content@))
            &&& base64_decoded(public.public_key_b64@) matches Some(pk)
            &&& base64_decoded(signature.signature_b64@) matches Some(sig)
            &&& ParamSet::named(lowercased(public.param_set@)) matches Some(set)
            &&& pk.len() == set.verifying_key_len()
            &&& sig.len() == set.signature_len()
            &&& slh_accepts(set, pk, content@, sig)
        },
        v == Ok::<Verdict, VerifyError>(Verdict::HashMismatch)
            <==> signature.file_sha256@ != hex_lower(sha256_digest(content@)),
{
}

/// The README's workflow over the operations themselves: for a name that selects a
/// parameter set after lowercasing, a key pair `generate_key_pair` returns signs any file
/// with `sign_file`, and `verify_content` then finds that signature valid for the same
/// file under the pair's public container.
pub proof fn lemma_generate_sign_verify(
    param_set: &str,
    keys: KeyPair,
    content: &[u8],
    file_name: &str,
    signed: Result<SignatureContainer, SignError>,
    verdict: Result<Verdict, VerifyError>,
)
    requires
        call_ensures(generate_key_pair, (param_set,), keys),
        call_ensures(sign_file, (&keys.private, content, file_name), signed),
        ParamSet::named(lowercased(param_set@)) is Some,
    ensures
        signed is Ok,
        call_ensures(verify_content, (&keys.public, &signed->Ok_0, content), verdict)
            ==> verdict == Ok::<Verdict, VerifyError>(Verdict::Valid),
{
    lemma_generated_pair_signs_and_verifies(param_set@, keys, content@, file_name@, signed);
}

/// Both containers of a generated key pair record, as their creation time, one and the same
/// reading of the clock taken by `now_rfc3339` during generation, which is RFC 3339 text.
pub proof fn lemma_creation_time_is_the_clock_reading(param_set: &str, keys: KeyPair)
    requires
        call_ensures(generate_key_pair, (param_set,), keys),
    ensures
        exists|t: String|
            call_ensures(now_rfc3339, (), t) && rfc3339_utc_text(t@) && keys.private.created_at@ == t@
                && keys.public.created_at@ == t@,
{
    let t = choose|t: String|
        call_ensures(now_rfc3339, (), t) && keys.private.created_at@ == t@ && keys.public.created_at@ == t@;
    assert(rfc3339_utc_text(t@));
}

/// A rotation archives under `bak_` followed by a `YYYYMMDD_HHMMSS` reading of the clock
/// taken by `now_compact` during the call, and regenerates for the archived key's
/// parameter-set name as `securekey_rotated`; two rotations of the same key differ at most
/// in that clock reading.
pub proof fn lemma_rotation_archives_under_the_clock_reading(
    private: &PrivateKeyContainer,
    first: RotationPlan,
    second: RotationPlan,
)
    requires
        call_ensures(plan_rotation, (private,), first),
        call_ensures(plan_rotation, (private,), second),
    ensures
        exists|t: String|
            call_ensures(now_compact, (), t) && compact_timestamp_text(t@)
                && first.archive_extension@ == "bak_"@ + t@,
        first.param_set@ == private.param_set@,
        first.param_set@ == second.param_set@,
        first.key_name@ == second.key_name@,
        first.key_name@ == rotated_key_name(),
{
    let t = choose|t: String| call_ensures(now_compact, (), t) && first.archive_extension@ == "bak_"@ + t@;
    assert(compact_timestamp_text(t@));
}

/// An overwrite buffer has the requested length; when reported random it is exactly the
/// buffer one fill from the operating system's random source produced, and otherwise
/// every byte is zero.
pub proof fn lemma_overwrite_is_random_or_zero(len: u64, r: Overwrite)
    requires
        call_ensures(random_overwrite, (len,), r),
    ensures
        r.bytes@.len() == len as usize,
        reported_by_random_source(len as usize, r.random, r.bytes),
        !r.random ==> forall|i: int| 0 <= i < r.bytes@.len() ==> r.bytes@[i] == 0,
{
}

} // verus!
