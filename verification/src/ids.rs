//! Event identifiers (UUIDs held as 128-bit integers) and the text encodings
//! that storage and transport use.
use vstd::arithmetic::power::pow;
use vstd::prelude::*;

verus! {

/// The UUID that `uuid::Uuid::parse_str` reads from `s`, if it accepts it
/// (simple, hyphenated, braced or URN form), as `Uuid::as_u128` gives it.
pub uninterp spec fn uuid_parse(s: Seq<char>) -> Option<u128>;

/// Standard (padded) base64 text of `bytes`, as `base64`'s `STANDARD`
/// engine encodes it.
pub uninterp spec fn base64_standard(bytes: Seq<u8>) -> Seq<char>;

/// Lowercase hexadecimal digit of `d` (0 to 15).
pub open spec fn hex_digit(d: int) -> char {
    if d < 10 {
        (('0' as int) + d) as char
    } else {
        (('a' as int) + d - 10) as char
    }
}

/// Number of hyphens before position `i` of the hyphenated form.
pub open spec fn hyphens_before(i: int) -> int {
    (if i > 8 { 1int } else { 0int }) + (if i > 13 { 1int } else { 0int }) + (if i > 18 {
        1int
    } else {
        0int
    }) + (if i > 23 { 1int } else { 0int })
}

/// Hyphenated lowercase form of a UUID (`8-4-4-4-12` hex digits, most
/// significant first).
pub open spec fn uuid_text(v: u128) -> Seq<char> {
    Seq::new(
        36,
        |i: int|
            if i == 8 || i == 13 || i == 18 || i == 23 {
                '-'
            } else {
                hex_digit((v as int / pow(16, (31 - (i - hyphens_before(i))) as nat)) % 16)
            },
    )
}

/// Reads a UUID from text.
pub fn parse_uuid(s: &str) -> (id: Option<u128>)
    ensures
        id == uuid_parse(s@),
{
    uuid_from_str(s)
}

/// Calls `uuid::Uuid::parse_str` and keeps the 128-bit value of a UUID it
/// accepts; the value is named `uuid_parse`.
#[verifier::external_body]
fn uuid_from_str(s: &str) -> (id: Option<u128>)
    ensures
        id == uuid_parse(s@),
{
    match uuid::Uuid::parse_str(s) {
        Ok(u) => Some(u.as_u128()),
        Err(_) => None,
    }
}

/// Calls `uuid::Uuid::new_v4`, a random UUID; nothing is promised of it.
#[verifier::external_body]
pub(crate) fn random_uuid() -> (id: u128) {
    uuid::Uuid::new_v4().as_u128()
}

/// Calls `uuid::Uuid::from_u128` and `to_string`: `Display` of a `Uuid`
/// writes its hyphenated form in lowercase, digits from the most
/// significant byte on.
#[verifier::external_body]
pub(crate) fn uuid_to_string(v: u128) -> (s: String)
    ensures
        s@ == uuid_text(v),
{
    uuid::Uuid::from_u128(v).to_string()
}

/// Calls `Engine::encode` of `base64::engine::general_purpose::STANDARD`;
/// the text is named `base64_standard`.
#[verifier::external_body]
pub(crate) fn encode_base64(bytes: &[u8]) -> (s: String)
    ensures
        s@ == base64_standard(bytes@),
{
    base64::Engine::encode(&base64::engine::general_purpose::STANDARD, bytes)
}

} // verus!
