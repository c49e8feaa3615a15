//! The two uses of `serde_json` in the build logic: reading one string
//! member of a JSON document, and writing a string as a JSON literal.
use vstd::prelude::*;

verus! {

/// What `serde_json` makes of `text` when asked for the string member `key`
/// of the top-level value: `None` when `text` is not JSON, `Some(None)` when
/// the member is absent or not a string.
pub uninterp spec fn json_string_member(text: Seq<char>, key: Seq<char>) -> Option<Option<Seq<char>>>;

/// A lower-case hexadecimal digit.
pub open spec fn hex_digit(n: int) -> char {
    seq!['0', '1', '2', '3', '4', '5', '6', '7', '8', '9', 'a', 'b', 'c', 'd', 'e', 'f'][n]
}

/// How one character is written inside a JSON string: `"` and `\` behind a
/// backslash; backspace, form feed, newline, carriage return and tab as
/// `\b \f \n \r \t`; any other character below U+0020 as `\u00XX`; every
/// other character as it is.
pub open spec fn json_escape_char(c: char) -> Seq<char> {
    if c == '"' {
        seq!['\\', '"']
    } else if c == '\\' {
        seq!['\\', '\\']
    } else if c == '\u{8}' {
        seq!['\\', 'b']
    } else if c == '\u{c}' {
        seq!['\\', 'f']
    } else if c == '\n' {
        seq!['\\', 'n']
    } else if c == '\r' {
        seq!['\\', 'r']
    } else if c == '\t' {
        seq!['\\', 't']
    } else if (c as int) < 0x20 {
        seq!['\\', 'u', '0', '0', hex_digit((c as int) / 16), hex_digit((c as int) % 16)]
    } else {
        seq![c]
    }
}

/// The characters of a text written inside a JSON string.
pub open spec fn json_escaped(s: Seq<char>) -> Seq<char>
    decreases s.len(),
{
    if s.len() == 0 {
        seq![]
    } else {
        json_escaped(s.drop_last()) + json_escape_char(s.last())
    }
}

/// A text written as a JSON string literal.
pub open spec fn json_literal(s: Seq<char>) -> Seq<char> {
    seq!['"'] + json_escaped(s) + seq!['"']
}

/// Parses `text` with `serde_json::from_str::<serde_json::Value>` and looks
/// up `key` with `Value::get`, keeping the member only when it is a string.
/// The outcome is named `json_string_member`; nothing more is claimed.
#[verifier::external_body]
pub(crate) fn string_member(text: &str, key: &str) -> (r: Option<Option<String>>)
    ensures
        match r {
            None => json_string_member(text@, key@) is None,
            Some(None) => json_string_member(text@, key@) == Some(None::<Seq<char>>),
            Some(Some(v)) => json_string_member(text@, key@) == Some(Some(v@)),
        },
{
    match serde_json::from_str::<serde_json::Value>(text) {
        Ok(value) => match value.get(key) {
            Some(serde_json::Value::String(s)) => Some(Some(s.clone())),
            _ => Some(None),
        },
        Err(_) => None,
    }
}

/// Writes `s` as a JSON string literal with `serde_json::to_string`.
/// Claimed: the result is `json_literal(s)` (serde_json's escape table); for
/// a string, writing into a `Vec` cannot fail, so the error case of
/// `to_string` never occurs.
#[verifier::external_body]
pub(crate) fn string_literal(s: &str) -> (r: String)
    ensures
        r@ == json_literal(s@),
{
    serde_json::to_string(s).unwrap_or_default()
}

} // verus!
