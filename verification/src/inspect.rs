//! Reading the metadata of a key container without exposing a private key.

use vstd::prelude::*;
use crate::containers::{PrivateKeyContainer, PublicKeyContainer};

verus! {

/// Which kind of container a key file held.
#[derive(Clone, Copy, Debug, PartialEq, Eq, Structural)]
pub enum KeyKind {
    Private,
    Public,
}

/// The metadata shown for a key file; it never carries a private key.
#[derive(Clone, Debug, PartialEq, Eq)]
pub struct KeyMetadata {
    pub kind: KeyKind,
    pub algorithm: String,
    pub param_set: String,
    pub security_category: u8,
    pub created_at: String,
    pub public_key_b64: String,
}

impl KeyMetadata {
    /// The metadata shows these fields.
    pub open spec fn shows(
        self,
        kind: KeyKind,
        algorithm: Seq<char>,
        param_set: Seq<char>,
        security_category: u8,
        created_at: Seq<char>,
        public_key_b64: Seq<char>,
    ) -> bool {
        &&& self.kind == kind
        &&& self.algorithm@ == algorithm
        &&& self.param_set@ == param_set
        &&& self.security_category == security_category
        &&& self.created_at@ == created_at
        &&& self.public_key_b64@ == public_key_b64
    }
}

/// The metadata of a key file, given what it parsed as: a private-key container is
/// preferred over a public-key one, and a file that is neither has none.
pub fn inspect_key(
    private: Option<&PrivateKeyContainer>,
    public: Option<&PublicKeyContainer>,
) -> (r: Option<KeyMetadata>)
    ensures
        match private {
            Some(p) => r matches Some(m) && m.shows(
                KeyKind::Private,
                p.algorithm@,
                p.param_set@,
                p.security_category,
                p.created_at@,
                p.public_key_b64@,
            ),
            None => match public {
                Some(p) => r matches Some(m) && m.shows(
                    KeyKind::Public,
                    p.algorithm@,
                    p.param_set@,
                    p.security_category,
                    p.created_at@,
                    p.public_key_b64@,
                ),
                None => r is None,
            },
        },
{
    match private {
        Some(p) => Some(KeyMetadata {
            kind: KeyKind::Private,
            algorithm: p.algorithm.clone(),
            param_set: p.param_set.clone(),
            security_category: p.security_category,
            created_at: p.created_at.clone(),
            public_key_b64: p.public_key_b64.clone(),
        }),
        None => match public {
            Some(p) => Some(KeyMetadata {
                kind: KeyKind::Public,
                algorithm: p.algorithm.clone(),
                param_set: p.param_set.clone(),
                security_category: p.security_category,
                created_at: p.created_at.clone(),
                public_key_b64: p.public_key_b64.clone(),
            }),
            None => None,
        },
    }
}

} // verus!
