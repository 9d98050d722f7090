//! Byte-to-text encodings: RFC 4648 base64 through the `base64` crate and lowercase
//! hexadecimal through the `hex` crate.

use vstd::prelude::*;

verus! {

/// The RFC 4648 base64 symbol for a six-bit value: `A-Z`, `a-z`, `0-9`, `+`, `/`.
pub open spec fn base64_symbol(v: int) -> char {
    if v < 26 {
        (65 + v) as char
    } else if v < 52 {
        (71 + v) as char
    } else if v < 62 {
        (v - 4) as char
    } else if v == 62 {
        '+'
    } else {
        '/'
    }
}

/// The standard RFC 4648 base64 text of some bytes: each group of three bytes becomes four
/// symbols of six bits each, high bits first; a final group of one or two bytes is
/// zero-filled and padded with `=` to four characters.
pub open spec fn base64_text(b: Seq<u8>) -> Seq<char>
    decreases b.len(),
{
    if b.len() == 0 {
        seq![]
    } else {
        let x0 = b[0] as int;
        let x1 = if b.len() > 1 { b[1] as int } else { 0 };
        let x2 = if b.len() > 2 { b[2] as int } else { 0 };
        let c0 = base64_symbol(x0 / 4);
        let c1 = base64_symbol((x0 % 4) * 16 + x1 / 16);
        let c2 = base64_symbol((x1 % 16) * 4 + x2 / 64);
        let c3 = base64_symbol(x2 % 64);
        if b.len() == 1 {
            seq![c0, c1, '=', '=']
        } else if b.len() == 2 {
            seq![c0, c1, c2, '=']
        } else {
            seq![c0, c1, c2, c3] + base64_text(b.skip(3))
        }
    }
}

/// What `base64`'s `STANDARD` engine decodes a text to, or `None` where it rejects it.
pub uninterp spec fn base64_decoded(text: Seq<char>) -> Option<Seq<u8>>;

/// The lowercase hexadecimal digit for a value below 16.
pub open spec fn hex_digit(v: u8) -> char {
    if v < 10 {
        (48 + v) as char
    } else {
        (87 + v) as char
    }
}

/// Lowercase hexadecimal text of some bytes: two digits per byte, high nibble first.
pub open spec fn hex_lower(bytes: Seq<u8>) -> Seq<char> {
    Seq::new(
        2 * bytes.len(),
        |i: int|
            if i % 2 == 0 {
                hex_digit(bytes[i / 2] / 16)
            } else {
                hex_digit(bytes[i / 2] % 16)
            },
    )
}

/// `base64::Engine::encode` on the `STANDARD` engine: RFC 4648 standard alphabet with
/// canonical `=` padding, as the crate documents. The contract also claims that the same
/// engine decodes that text back to the same bytes (its decoder requires canonical padding
/// and no trailing bits, which this text meets).
#[verifier::external_body]
pub fn encode_base64(bytes: &[u8]) -> (r: String)
    ensures
        r@ == base64_text(bytes@),
        base64_decoded(r@) == Some(bytes@),
{
    base64::Engine::encode(&base64::engine::general_purpose::STANDARD, bytes)
}

/// `base64::Engine::decode` on the `STANDARD` engine; `None` where it returns an error.
/// The decoded bytes are named by `base64_decoded`.
#[verifier::external_body]
pub fn decode_base64(text: &str) -> (r: Option<Vec<u8>>)
    ensures
        match r {
            Some(v) => base64_decoded(text@) == Some(v@),
            None => base64_decoded(text@) is None,
        },
{
    match base64::Engine::decode(&base64::engine::general_purpose::STANDARD, text) {
        Ok(v) => Some(v),
        Err(_) => None,
    }
}

/// `hex::encode`: the documentation says it writes each byte as two lowercase
/// hexadecimal digits.
#[verifier::external_body]
pub fn encode_hex(bytes: &[u8]) -> (r: String)
    ensures
        r@ == hex_lower(bytes@),
{
    hex::encode(bytes)
}

} // verus!
