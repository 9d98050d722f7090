//! Exporting a public key as hex, PEM or base64 text.

use vstd::prelude::*;
use crate::containers::PublicKeyContainer;
use crate::encoding::{base64_decoded, decode_base64, encode_hex, hex_lower};
use crate::text::{joined, lowercased, text_equals, to_lowercase, to_uppercase, uppercased};

verus! {

/// Why a public key could not be exported.
#[derive(Clone, Copy, Debug, PartialEq, Eq, Structural)]
pub enum ExportError {
    /// The public key is not valid base64.
    PublicKeyNotBase64,
}

impl ExportError {
    /// The message the tool stops with for this error.
    pub fn message(&self) -> (r: &'static str)
        ensures
            match *self {
                ExportError::PublicKeyNotBase64 => r@ == "Invalid base64"@,
            },
    {
        match self {
            ExportError::PublicKeyNotBase64 => "Invalid base64",
        }
    }
}

/// An exported public key: a heading line and the lines of the export itself.
#[derive(Clone, Debug, PartialEq, Eq)]
pub struct ExportedKey {
    pub heading: String,
    pub lines: Vec<String>,
}

/// The PEM armour lines around an exported key.
pub open spec fn pem_begin() -> Seq<char> {
    "-----BEGIN SLH-DSA PUBLIC KEY-----"@
}

/// The PEM armour lines around an exported key.
pub open spec fn pem_end() -> Seq<char> {
    "-----END SLH-DSA PUBLIC KEY-----"@
}

/// The heading of an export in a format: `=== Exported Public Key (<FORMAT>) ===`.
pub open spec fn export_heading(format: Seq<char>) -> Seq<char> {
    "=== Exported Public Key ("@ + uppercased(format) + ") ==="@
}

/// The lines of an export: the lowercase hex of the raw key for `hex`, the base64 text in
/// PEM armour for `pem`, and the base64 text as stored for any other format (the format
/// name is compared lowercased).
pub open spec fn export_lines(b64: Seq<char>, raw: Seq<u8>, format: Seq<char>) -> Seq<Seq<char>> {
    if lowercased(format) == "hex"@ {
        seq![hex_lower(raw)]
    } else if lowercased(format) == "pem"@ {
        seq![pem_begin(), b64, pem_end()]
    } else {
        seq![b64]
    }
}

/// The views of a vector of strings.
pub open spec fn line_views(lines: Seq<String>) -> Seq<Seq<char>> {
    lines.map_values(|l: String| l@)
}

/// Exports the public key in `public` in `format` (`hex`, `pem`, anything else meaning the
/// stored base64). Fails when the stored key is not base64.
pub fn export_public_key(public: &PublicKeyContainer, format: &str) -> (r: Result<ExportedKey, ExportError>)
    ensures
        match base64_decoded(public.public_key_b64@) {
            None => r == Err::<ExportedKey, ExportError>(ExportError::PublicKeyNotBase64),
            Some(raw) => r matches Ok(e) && e.heading@ == export_heading(format@)
                && line_views(e.lines@) == export_lines(public.public_key_b64@, raw, format@),
        },
{
    let raw = match decode_base64(public.public_key_b64.as_str()) {
        Some(raw) => raw,
        None => return Err(ExportError::PublicKeyNotBase64),
    };
    let upper = to_uppercase(format);
    let head = joined("=== Exported Public Key (", upper.as_str());
    let heading = joined(head.as_str(), ") ===");
    let fmt = to_lowercase(format);
    let mut lines: Vec<String> = Vec::new();
    if text_equals(fmt.as_str(), "hex") {
        lines.push(encode_hex(raw.as_slice()));
    } else if text_equals(fmt.as_str(), "pem") {
        lines.push(String::from_str("-----BEGIN SLH-DSA PUBLIC KEY-----"));
        lines.push(public.public_key_b64.clone());
        lines.push(String::from_str("-----END SLH-DSA PUBLIC KEY-----"));
    } else {
        lines.push(public.public_key_b64.clone());
    }
    assert(line_views(lines@) =~= export_lines(public.public_key_b64@, raw@, format@));
    Ok(ExportedKey { heading, lines })
}

} // verus!
