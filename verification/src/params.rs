//! The SLH-DSA parameter sets the tool knows, how a parameter-set name selects one,
//! and the NIST security category that a name announces.

use vstd::prelude::*;
use crate::text::{
    ascii_text, contains_run, lemma_case_keeps_digit_runs, lemma_lower_ascii_is_fixed, lowercased,
    text_contains, text_equals, uppercased,
};

verus! {

/// One of the twelve SLH-DSA parameter sets of FIPS 205.
#[derive(Clone, Copy, Debug, PartialEq, Eq, Structural)]
pub enum ParamSet {
    Sha2_128f,
    Sha2_128s,
    Sha2_192f,
    Sha2_192s,
    Sha2_256f,
    Sha2_256s,
    Shake128f,
    Shake128s,
    Shake192f,
    Shake192s,
    Shake256f,
    Shake256s,
}

impl ParamSet {
    /// The security parameter `n` in bytes.
    pub open spec fn n(self) -> nat {
        match self {
            ParamSet::Sha2_128f | ParamSet::Sha2_128s | ParamSet::Shake128f | ParamSet::Shake128s => 16,
            ParamSet::Sha2_192f | ParamSet::Sha2_192s | ParamSet::Shake192f | ParamSet::Shake192s => 24,
            _ => 32,
        }
    }

    /// Length of a serialized signing key: SK.seed, SK.prf, PK.seed, PK.root.
    pub open spec fn signing_key_len(self) -> nat {
        4 * self.n()
    }

    /// Length of a serialized verifying key: PK.seed, PK.root.
    pub open spec fn verifying_key_len(self) -> nat {
        2 * self.n()
    }

    /// Length of a serialized signature.
    pub open spec fn signature_len(self) -> nat {
        match self {
            ParamSet::Sha2_128s | ParamSet::Shake128s => 7856,
            ParamSet::Sha2_128f | ParamSet::Shake128f => 17088,
            ParamSet::Sha2_192s | ParamSet::Shake192s => 16224,
            ParamSet::Sha2_192f | ParamSet::Shake192f => 35664,
            ParamSet::Sha2_256s | ParamSet::Shake256s => 29792,
            ParamSet::Sha2_256f | ParamSet::Shake256f => 49856,
        }
    }

    /// The public half of a serialized signing key (PK.seed followed by PK.root).
    pub open spec fn public_part(self, signing_key: Seq<u8>) -> Seq<u8> {
        signing_key.subrange(2 * self.n() as int, 4 * self.n() as int)
    }

    /// The parameter set that a (normalized) name selects: the short name such as
    /// `sha2-128f`, or the same with the `slh-dsa-` prefix.
    pub open spec fn named(name: Seq<char>) -> Option<ParamSet> {
        if name == "sha2-128f"@ || name == "slh-dsa-sha2-128f"@ {
            Some(ParamSet::Sha2_128f)
        } else if name == "sha2-128s"@ || name == "slh-dsa-sha2-128s"@ {
            Some(ParamSet::Sha2_128s)
        } else if name == "sha2-192f"@ || name == "slh-dsa-sha2-192f"@ {
            Some(ParamSet::Sha2_192f)
        } else if name == "sha2-192s"@ || name == "slh-dsa-sha2-192s"@ {
            Some(ParamSet::Sha2_192s)
        } else if name == "sha2-256f"@ || name == "slh-dsa-sha2-256f"@ {
            Some(ParamSet::Sha2_256f)
        } else if name == "sha2-256s"@ || name == "slh-dsa-sha2-256s"@ {
            Some(ParamSet::Sha2_256s)
        } else if name == "shake-128f"@ || name == "slh-dsa-shake-128f"@ {
            Some(ParamSet::Shake128f)
        } else if name == "shake-128s"@ || name == "slh-dsa-shake-128s"@ {
            Some(ParamSet::Shake128s)
        } else if name == "shake-192f"@ || name == "slh-dsa-shake-192f"@ {
            Some(ParamSet::Shake192f)
        } else if name == "shake-192s"@ || name == "slh-dsa-shake-192s"@ {
            Some(ParamSet::Shake192s)
        } else if name == "shake-256f"@ || name == "slh-dsa-shake-256f"@ {
            Some(ParamSet::Shake256f)
        } else if name == "shake-256s"@ || name == "slh-dsa-shake-256s"@ {
            Some(ParamSet::Shake256s)
        } else {
            None
        }
    }

    /// The parameter set used for key generation and signing: the named one, and
    /// SHA2-128f for a name that selects none.
    pub open spec fn named_or_default(name: Seq<char>) -> ParamSet {
        match ParamSet::named(name) {
            Some(p) => p,
            None => ParamSet::Sha2_128f,
        }
    }

    fn name_is(name: &str, short: &str, long: &str) -> (r: bool)
        ensures
            r == (name@ == short@ || name@ == long@),
    {
        text_equals(name, short) || text_equals(name, long)
    }

    /// Selects the parameter set that a normalized name stands for.
    pub fn from_name(name: &str) -> (r: Option<ParamSet>)
        ensures
            r == ParamSet::named(name@),
    {
        if Self::name_is(name, "sha2-128f", "slh-dsa-sha2-128f") {
            Some(ParamSet::Sha2_128f)
        } else if Self::name_is(name, "sha2-128s", "slh-dsa-sha2-128s") {
            Some(ParamSet::Sha2_128s)
        } else if Self::name_is(name, "sha2-192f", "slh-dsa-sha2-192f") {
            Some(ParamSet::Sha2_192f)
        } else if Self::name_is(name, "sha2-192s", "slh-dsa-sha2-192s") {
            Some(ParamSet::Sha2_192s)
        } else if Self::name_is(name, "sha2-256f", "slh-dsa-sha2-256f") {
            Some(ParamSet::Sha2_256f)
        } else if Self::name_is(name, "sha2-256s", "slh-dsa-sha2-256s") {
            Some(ParamSet::Sha2_256s)
        } else if Self::name_is(name, "shake-128f", "slh-dsa-shake-128f") {
            Some(ParamSet::Shake128f)
        } else if Self::name_is(name, "shake-128s", "slh-dsa-shake-128s") {
            Some(ParamSet::Shake128s)
        } else if Self::name_is(name, "shake-192f", "slh-dsa-shake-192f") {
            Some(ParamSet::Shake192f)
        } else if Self::name_is(name, "shake-192s", "slh-dsa-shake-192s") {
            Some(ParamSet::Shake192s)
        } else if Self::name_is(name, "shake-256f", "slh-dsa-shake-256f") {
            Some(ParamSet::Shake256f)
        } else if Self::name_is(name, "shake-256s", "slh-dsa-shake-256s") {
            Some(ParamSet::Shake256s)
        } else {
            None
        }
    }

    /// Selects the parameter set for key generation and signing: the named one, or
    /// SHA2-128f when the name selects none.
    pub fn from_name_or_default(name: &str) -> (r: ParamSet)
        ensures
            r == ParamSet::named_or_default(name@),
    {
        match Self::from_name(name) {
            Some(p) => p,
            None => ParamSet::Sha2_128f,
        }
    }

    /// Length in bytes of a serialized signing key.
    pub fn signing_key_length(&self) -> (r: usize)
        ensures
            r == self.signing_key_len(),
    {
        match self {
            ParamSet::Sha2_128f | ParamSet::Sha2_128s | ParamSet::Shake128f | ParamSet::Shake128s => 64,
            ParamSet::Sha2_192f | ParamSet::Sha2_192s | ParamSet::Shake192f | ParamSet::Shake192s => 96,
            _ => 128,
        }
    }

    /// Length in bytes of a serialized verifying key.
    pub fn verifying_key_length(&self) -> (r: usize)
        ensures
            r == self.verifying_key_len(),
    {
        match self {
            ParamSet::Sha2_128f | ParamSet::Sha2_128s | ParamSet::Shake128f | ParamSet::Shake128s => 32,
            ParamSet::Sha2_192f | ParamSet::Sha2_192s | ParamSet::Shake192f | ParamSet::Shake192s => 48,
            _ => 64,
        }
    }

    /// Length in bytes of a serialized signature.
    pub fn signature_length(&self) -> (r: usize)
        ensures
            r == self.signature_len(),
    {
        match self {
            ParamSet::Sha2_128s | ParamSet::Shake128s => 7856,
            ParamSet::Sha2_128f | ParamSet::Shake128f => 17088,
            ParamSet::Sha2_192s | ParamSet::Shake192s => 16224,
            ParamSet::Sha2_192f | ParamSet::Shake192f => 35664,
            ParamSet::Sha2_256s | ParamSet::Shake256s => 29792,
            ParamSet::Sha2_256f | ParamSet::Shake256f => 49856,
        }
    }
}

/// The NIST security category announced by a parameter-set name: 1 when it mentions
/// `128`, else 3 when it mentions `192`, else 5 when it mentions `256`, else 1.
pub open spec fn security_category(name: Seq<char>) -> u8 {
    if contains_run(name, "128"@) {
        1
    } else if contains_run(name, "192"@) {
        3
    } else if contains_run(name, "256"@) {
        5
    } else {
        1
    }
}

/// The NIST security category that a parameter-set name announces.
pub fn get_security_category(param_set: &str) -> (r: u8)
    ensures
        r == security_category(param_set@),
        r == 1 || r == 3 || r == 5,
{
    if text_contains(param_set, "128") {
        1
    } else if text_contains(param_set, "192") {
        3
    } else if text_contains(param_set, "256") {
        5
    } else {
        1
    }
}

/// Every name that selects a parameter set is lowercase ASCII, so lowercasing it again
/// gives it back.
pub proof fn lemma_set_names_are_lowercase(name: Seq<char>)
    requires
        ParamSet::named(name) is Some,
    ensures
        ascii_text(name),
        lowercased(name) == name,
{
    reveal_strlit("sha2-128f");
    reveal_strlit("sha2-128s");
    reveal_strlit("sha2-192f");
    reveal_strlit("sha2-192s");
    reveal_strlit("sha2-256f");
    reveal_strlit("sha2-256s");
    reveal_strlit("shake-128f");
    reveal_strlit("shake-128s");
    reveal_strlit("shake-192f");
    reveal_strlit("shake-192s");
    reveal_strlit("shake-256f");
    reveal_strlit("shake-256s");
    reveal_strlit("slh-dsa-sha2-128f");
    reveal_strlit("slh-dsa-sha2-128s");
    reveal_strlit("slh-dsa-sha2-192f");
    reveal_strlit("slh-dsa-sha2-192s");
    reveal_strlit("slh-dsa-sha2-256f");
    reveal_strlit("slh-dsa-sha2-256s");
    reveal_strlit("slh-dsa-shake-128f");
    reveal_strlit("slh-dsa-shake-128s");
    reveal_strlit("slh-dsa-shake-192f");
    reveal_strlit("slh-dsa-shake-192s");
    reveal_strlit("slh-dsa-shake-256f");
    reveal_strlit("slh-dsa-shake-256s");
    lemma_lower_ascii_is_fixed(name);
}

/// Changing the letter case of an ASCII parameter-set name never changes the security
/// category it announces.
pub proof fn lemma_letter_case_keeps_category(name: Seq<char>)
    requires
        ascii_text(name),
    ensures
        security_category(lowercased(name)) == security_category(name),
        security_category(uppercased(name)) == security_category(name),
{
    reveal_strlit("128");
    reveal_strlit("192");
    reveal_strlit("256");
    lemma_case_keeps_digit_runs(name, "128"@);
    lemma_case_keeps_digit_runs(name, "192"@);
    lemma_case_keeps_digit_runs(name, "256"@);
}

} // verus!
