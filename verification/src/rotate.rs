//! Key rotation: the old private key is archived and a new key pair of the same parameter
//! set is generated under a fixed name.

use vstd::prelude::*;
use crate::clock::{compact_timestamp_text, now_compact};
use crate::containers::PrivateKeyContainer;
use crate::text::joined;

verus! {

/// The key name the rotated key pair is stored under.
pub open spec fn rotated_key_name() -> Seq<char> {
    "securekey_rotated"@
}

/// What a rotation does: the extension the old key file is renamed to, the parameter-set
/// name the new key pair is generated for, and the new key pair's name.
#[derive(Clone, Debug, PartialEq, Eq)]
pub struct RotationPlan {
    pub archive_extension: String,
    pub param_set: String,
    pub key_name: String,
}

/// The rotation of `private` at the time written as `timestamp`: archive under
/// `bak_<timestamp>`, regenerate for the old parameter-set name, as `securekey_rotated`.
pub fn plan_rotation_at(private: &PrivateKeyContainer, timestamp: &str) -> (r: RotationPlan)
    ensures
        r.archive_extension@ == "bak_"@ + timestamp@,
        r.param_set@ == private.param_set@,
        r.key_name@ == rotated_key_name(),
{
    RotationPlan {
        archive_extension: joined("bak_", timestamp),
        param_set: private.param_set.clone(),
        key_name: String::from_str("securekey_rotated"),
    }
}

/// The rotation of `private` now, timestamped `YYYYMMDD_HHMMSS` with the clock reading
/// taken in this call. The timestamp varies; the
/// parameter-set name and the new key name do not.
pub fn plan_rotation(private: &PrivateKeyContainer) -> (r: RotationPlan)
    ensures
        r.param_set@ == private.param_set@,
        r.key_name@ == rotated_key_name(),
        exists|t: Seq<char>| compact_timestamp_text(t) && r.archive_extension@ == "bak_"@ + t,
        exists|t: String| call_ensures(now_compact, (), t) && r.archive_extension@ == "bak_"@ + t@,
{
    let timestamp = now_compact();
    plan_rotation_at(private, timestamp.as_str())
}

} // verus!
