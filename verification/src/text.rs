//! Text primitives from `std` that the rest of the library builds on.

use vstd::prelude::*;

verus! {

/// `sub` occurs as a contiguous run of characters somewhere in `s`.
pub open spec fn contains_run(s: Seq<char>, sub: Seq<char>) -> bool {
    exists|i: int| 0 <= i <= s.len() - sub.len() && #[trigger] s.subrange(i, i + sub.len()) == sub
}

/// What `str::to_lowercase` returns for a text that is not all ASCII (Unicode lowercase
/// mapping).
pub uninterp spec fn lowercase(s: Seq<char>) -> Seq<char>;

/// What `str::to_uppercase` returns for a text that is not all ASCII (Unicode uppercase
/// mapping).
pub uninterp spec fn uppercase(s: Seq<char>) -> Seq<char>;

/// Every character of the text is ASCII.
pub open spec fn ascii_text(s: Seq<char>) -> bool {
    forall|i: int| 0 <= i < s.len() ==> (#[trigger] s[i] as u32) < 128
}

/// An ASCII digit.
pub open spec fn is_digit(c: char) -> bool {
    '0' <= c && c <= '9'
}

/// `A`-`Z` become `a`-`z`; every other character is kept.
pub open spec fn ascii_lower_char(c: char) -> char {
    if 'A' <= c && c <= 'Z' {
        ((c as u32) + 32) as char
    } else {
        c
    }
}

/// `a`-`z` become `A`-`Z`; every other character is kept.
pub open spec fn ascii_upper_char(c: char) -> char {
    if 'a' <= c && c <= 'z' {
        ((c as u32) - 32) as char
    } else {
        c
    }
}

/// The text with `A`-`Z` lowered, character by character.
pub open spec fn ascii_lower(s: Seq<char>) -> Seq<char> {
    s.map_values(|c: char| ascii_lower_char(c))
}

/// The text with `a`-`z` raised, character by character.
pub open spec fn ascii_upper(s: Seq<char>) -> Seq<char> {
    s.map_values(|c: char| ascii_upper_char(c))
}

/// What `str::to_lowercase` returns: on ASCII text the Unicode lowercase mapping lowers
/// `A`-`Z` and keeps every other character; beyond ASCII it is named by `lowercase`.
pub open spec fn lowercased(s: Seq<char>) -> Seq<char> {
    if ascii_text(s) {
        ascii_lower(s)
    } else {
        lowercase(s)
    }
}

/// What `str::to_uppercase` returns: on ASCII text the Unicode uppercase mapping raises
/// `a`-`z` and keeps every other character; beyond ASCII it is named by `uppercase`.
pub open spec fn uppercased(s: Seq<char>) -> Seq<char> {
    if ascii_text(s) {
        ascii_upper(s)
    } else {
        uppercase(s)
    }
}

/// Lowercasing ASCII text gives ASCII text that lowercasing keeps as it is.
pub proof fn lemma_lowercased_ascii_is_fixed(s: Seq<char>)
    requires
        ascii_text(s),
    ensures
        ascii_text(lowercased(s)),
        lowercased(lowercased(s)) == lowercased(s),
{
    let l = ascii_lower(s);
    assert forall|i: int| 0 <= i < l.len() implies (#[trigger] l[i] as u32) < 128 by {
        assert((s[i] as u32) < 128);
    }
    assert(ascii_lower(l) =~= l);
}

/// ASCII text without upper-case letters is its own lowercase form.
pub proof fn lemma_lower_ascii_is_fixed(s: Seq<char>)
    requires
        forall|i: int| 0 <= i < s.len() ==> {
            let c = #[trigger] s[i];
            ('a' <= c && c <= 'z') || is_digit(c) || c == '-'
        },
    ensures
        ascii_text(s),
        lowercased(s) == s,
{
    assert forall|i: int| 0 <= i < s.len() implies (#[trigger] s[i] as u32) < 128 by {
        let c = s[i];
        assert(('a' <= c && c <= 'z') || is_digit(c) || c == '-');
    }
    assert(ascii_lower(s) =~= s);
}

/// Raising or lowering letters never creates or removes a run of digits.
pub proof fn lemma_case_keeps_digit_runs(s: Seq<char>, d: Seq<char>)
    requires
        forall|j: int| 0 <= j < d.len() ==> is_digit(#[trigger] d[j]),
    ensures
        contains_run(ascii_lower(s), d) == contains_run(s, d),
        contains_run(ascii_upper(s), d) == contains_run(s, d),
{
    let lo = ascii_lower(s);
    let up = ascii_upper(s);
    if contains_run(s, d) {
        let i = choose|i: int| 0 <= i <= s.len() - d.len() && #[trigger] s.subrange(i, i + d.len()) == d;
        assert forall|j: int| 0 <= j < d.len() implies lo.subrange(i, i + d.len())[j] == d[j] by {
            assert(s.subrange(i, i + d.len())[j] == d[j]);
            assert(is_digit(d[j]));
        }
        assert(lo.subrange(i, i + d.len()) =~= d);
        assert forall|j: int| 0 <= j < d.len() implies up.subrange(i, i + d.len())[j] == d[j] by {
            assert(s.subrange(i, i + d.len())[j] == d[j]);
            assert(is_digit(d[j]));
        }
        assert(up.subrange(i, i + d.len()) =~= d);
    }
    if contains_run(lo, d) {
        let i = choose|i: int| 0 <= i <= lo.len() - d.len() && #[trigger] lo.subrange(i, i + d.len()) == d;
        assert forall|j: int| 0 <= j < d.len() implies s.subrange(i, i + d.len())[j] == d[j] by {
            assert(lo.subrange(i, i + d.len())[j] == d[j]);
            assert(is_digit(d[j]));
            assert(lo[i + j] == ascii_lower_char(s[i + j]));
        }
        assert(s.subrange(i, i + d.len()) =~= d);
    }
    if contains_run(up, d) {
        let i = choose|i: int| 0 <= i <= up.len() - d.len() && #[trigger] up.subrange(i, i + d.len()) == d;
        assert forall|j: int| 0 <= j < d.len() implies s.subrange(i, i + d.len())[j] == d[j] by {
            assert(up.subrange(i, i + d.len())[j] == d[j]);
            assert(is_digit(d[j]));
            assert(up[i + j] == ascii_upper_char(s[i + j]));
        }
        assert(s.subrange(i, i + d.len()) =~= d);
    }
}

/// `str::contains` with a `&str` pattern: the documentation says it is true exactly when
/// the pattern matches a sub-slice of the string.
#[verifier::external_body]
pub fn text_contains(s: &str, pattern: &str) -> (r: bool)
    ensures
        r == contains_run(s@, pattern@),
{
    s.contains(pattern)
}

/// `str::to_lowercase`, which the documentation defines by the Unicode lowercase mapping.
/// On ASCII text that mapping lowers `A`-`Z` and keeps the rest; beyond ASCII the result
/// is named by `lowercase` and the Unicode tables are left unstated.
#[verifier::external_body]
pub fn to_lowercase(s: &str) -> (r: String)
    ensures
        ascii_text(s@) ==> r@ == ascii_lower(s@),
        !ascii_text(s@) ==> r@ == lowercase(s@),
{
    s.to_lowercase()
}

/// `str::to_uppercase`, which the documentation defines by the Unicode uppercase mapping.
/// On ASCII text that mapping raises `a`-`z` and keeps the rest; beyond ASCII the result
/// is named by `uppercase` and the Unicode tables are left unstated.
#[verifier::external_body]
pub fn to_uppercase(s: &str) -> (r: String)
    ensures
        ascii_text(s@) ==> r@ == ascii_upper(s@),
        !ascii_text(s@) ==> r@ == uppercase(s@),
{
    s.to_uppercase()
}

/// Character-wise equality of two texts.
pub fn text_equals(a: &str, b: &str) -> (r: bool)
    ensures
        r == (a@ == b@),
{
    let x = String::from_str(a);
    let y = String::from_str(b);
    x == y
}

/// `a` followed by `b`, as a new string.
pub fn joined(a: &str, b: &str) -> (r: String)
    ensures
        r@ == a@ + b@,
{
    let mut s = String::from_str(a);
    s.append(b);
    s
}

} // verus!
