//! The few calls this library makes into std and outside crates, each with
//! the contract it is trusted to meet.
use vstd::prelude::*;
use crate::text::{is_blank, texts};

verus! {

/// Relies on `str::trim`: it removes leading and trailing characters with
/// the Unicode `White_Space` property, so nothing is left exactly when the
/// text holds nothing else.
#[verifier::external_body]
pub(crate) fn trim_text(s: &str) -> (r: &str)
    ensures
        r@.len() == 0 <==> is_blank(s@),
{
    s.trim()
}

/// What `serde_json::from_str::<Vec<String>>` makes of a text.
pub uninterp spec fn json_string_list_of(s: Seq<char>) -> Option<Seq<Seq<char>>>;

/// Relies on `serde_json::from_str::<Vec<String>>`: decodes a JSON array of
/// strings, or fails; the outcome depends on the text alone.
#[verifier::external_body]
pub(crate) fn parse_string_list(raw: &str) -> (r: Option<Vec<String>>)
    ensures
        match r {
            None => json_string_list_of(raw@) is None,
            Some(v) => json_string_list_of(raw@) == Some(v@.map_values(|x: String| x@)),
        },
{
    serde_json::from_str::<Vec<String>>(raw).ok()
}

/// Relies on `uuid::Uuid::new_v4` and `Uuid::as_u128`: a random
/// version-4 identifier, as an integer. Nothing is promised of its value.
#[verifier::external_body]
pub(crate) fn fresh_id() -> (r: u128) {
    uuid::Uuid::new_v4().as_u128()
}

/// Relies on `chrono::Utc::now` and `DateTime::timestamp_millis`: the
/// current time in milliseconds since the Unix epoch. Nothing is promised of
/// its value.
#[verifier::external_body]
pub(crate) fn now_millis() -> (r: i64) {
    chrono::Utc::now().timestamp_millis()
}

/// What `char::to_uppercase` makes of a character.
pub uninterp spec fn uppercase_of(c: char) -> Seq<char>;

/// Relies on `char::to_uppercase`: the uppercase form of a character, one
/// or more characters long, which depends on the character alone.
#[verifier::external_body]
pub(crate) fn uppercase_char(c: char) -> (r: String)
    ensures
        r@ == uppercase_of(c),
{
    c.to_uppercase().collect::<String>()
}

/// What `serde_json::to_string` makes of a list of strings.
pub uninterp spec fn json_text_of_string_list(l: Seq<Seq<char>>) -> Option<Seq<char>>;

/// Relies on `serde_json::to_string` on a `Vec<String>`: the JSON array of
/// the strings, which depends on the texts alone. Serializing strings into
/// an in-memory buffer cannot fail, and `serde_json::from_str` reads the
/// text back as the same strings.
#[verifier::external_body]
pub(crate) fn encode_string_list(v: &Vec<String>) -> (r: Option<String>)
    ensures
        r is Some,
        match r {
            Some(t) => json_text_of_string_list(texts(v@)) == Some(t@),
            None => json_text_of_string_list(texts(v@)) is None,
        },
        r matches Some(t) ==> json_string_list_of(t@) == Some(texts(v@)),
{
    serde_json::to_string(v).ok()
}

/// The lowercase hex digit of a value below 16.
pub open spec fn hex_digit(n: u128) -> char {
    "0123456789abcdef"@[n as int]
}

/// The `i`-th of the 32 hex digits of `v`, the most significant first.
pub open spec fn nibble(v: u128, i: int) -> u128 {
    (v >> ((124 - 4 * i) as u128)) & 15u128
}

/// The 32 lowercase hex digits of `v`, the most significant first.
pub open spec fn uuid_hex(v: u128) -> Seq<char> {
    Seq::new(32, |i: int| hex_digit(nibble(v, i)))
}

/// The hyphenated form of an identifier: its hex digits in groups of 8, 4,
/// 4, 4 and 12, joined by hyphens.
pub open spec fn uuid_text_of(v: u128) -> Seq<char> {
    let h = uuid_hex(v);
    h.subrange(0, 8) + "-"@ + h.subrange(8, 12) + "-"@ + h.subrange(12, 16) + "-"@ + h.subrange(16, 20)
        + "-"@ + h.subrange(20, 32)
}

/// Relies on `uuid::Uuid::from_u128` and the `Display` of `Uuid`, which
/// writes the hyphenated lowercase form of the big-endian bytes; that form is
/// one `Uuid::parse_str` reads back.
#[verifier::external_body]
pub(crate) fn uuid_text(v: u128) -> (r: String)
    ensures
        r@ == uuid_text_of(v),
        uuid_value_of(r@) == Some(v),
{
    uuid::Uuid::from_u128(v).to_string()
}

/// The identifier `uuid::Uuid::parse_str` reads from a text, if any.
pub uninterp spec fn uuid_value_of(s: Seq<char>) -> Option<u128>;

/// Relies on `uuid::Uuid::parse_str` and `Uuid::as_u128`: reads an
/// identifier written in any of the crate's formats, or fails; the outcome
/// depends on the text alone.
#[verifier::external_body]
pub(crate) fn parse_uuid(s: &str) -> (r: Option<u128>)
    ensures
        r == uuid_value_of(s@),
{
    match uuid::Uuid::parse_str(s) {
        Ok(u) => Some(u.as_u128()),
        Err(_) => None,
    }
}

} // verus!
