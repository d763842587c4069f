//! Record ids: freshly generated UUIDs, and the check that a text is a
//! UUID (the only shape of id media file names are ever built from).

use vstd::prelude::*;

verus! {

/// An ASCII hexadecimal digit, either case.
pub open spec fn is_hex_digit(c: char) -> bool {
    ('0' <= c && c <= '9') || ('a' <= c && c <= 'f') || ('A' <= c && c <= 'F')
}

/// A lowercase ASCII hexadecimal digit.
pub open spec fn is_lower_hex_digit(c: char) -> bool {
    ('0' <= c && c <= '9') || ('a' <= c && c <= 'f')
}

pub open spec fn is_hyphen_position(i: int) -> bool {
    i == 8 || i == 13 || i == 18 || i == 23
}

/// 36 characters: hex digits with hyphens at positions 8, 13, 18, 23.
pub open spec fn is_hyphenated(s: Seq<char>) -> bool {
    &&& s.len() == 36
    &&& forall|i: int|
        0 <= i < 36 ==> if is_hyphen_position(i) {
            s[i] == '-'
        } else {
            is_hex_digit(s[i])
        }
}

/// 32 hex digits, no hyphens.
pub open spec fn is_simple(s: Seq<char>) -> bool {
    s.len() == 32 && forall|i: int| 0 <= i < 32 ==> is_hex_digit(#[trigger] s[i])
}

pub open spec fn ascii_lower(c: char) -> char {
    if 'A' <= c && c <= 'Z' {
        ((c as u32) + 32) as char
    } else {
        c
    }
}

/// The texts `Uuid::parse_str` accepts: simple, hyphenated, braced
/// (`{...}`), or URN (`urn:uuid:...`, prefix case-insensitive).
pub open spec fn uuid_text_accepted(s: Seq<char>) -> bool {
    ||| is_simple(s)
    ||| is_hyphenated(s)
    ||| (s.len() == 38 && s[0] == '{' && s[37] == '}' && is_hyphenated(s.subrange(1, 37)))
    ||| (s.len() == 45 && s.subrange(0, 9).map_values(|c: char| ascii_lower(c)) == "urn:uuid:"@
        && is_hyphenated(s.subrange(9, 45)))
}

/// The canonical text of a UUID: hyphenated, lowercase.
pub open spec fn is_canonical_uuid(s: Seq<char>) -> bool {
    &&& is_hyphenated(s)
    &&& forall|i: int| 0 <= i < 36 && !is_hyphen_position(i) ==> is_lower_hex_digit(#[trigger] s[i])
}

pub proof fn lemma_canonical_is_accepted(s: Seq<char>)
    requires
        is_canonical_uuid(s),
    ensures
        uuid_text_accepted(s),
{
}

/// A fresh random (version 4) UUID in its canonical text form
/// (`uuid::Uuid::new_v4().to_string()`). The value is random; only its
/// shape is stated.
#[verifier::external_body]
pub(crate) fn new_uuid() -> (r: String)
    ensures
        is_canonical_uuid(r@),
{
    uuid::Uuid::new_v4().to_string()
}

/// Whether `uuid::Uuid::parse_str` accepts `s`.
#[verifier::external_body]
pub(crate) fn uuid_parses(s: &str) -> (r: bool)
    ensures
        r == uuid_text_accepted(s@),
{
    uuid::Uuid::parse_str(s).is_ok()
}

} // verus!
