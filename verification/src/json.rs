//! The JSON that the library reads and writes, delegated to `serde_json`.
//!
//! Each function here is trusted: its body is one call into `serde_json`.
//! What is written is stated in full; what is read is named, as the value
//! that the call yields for the bytes it is given.

use vstd::prelude::*;
use crate::encoding::digit32;

verus! {

/// The string that `serde_json::from_slice::<String>` decodes from `text`, or
/// `None` where it reports an error.
pub uninterp spec fn json_string_value(text: Seq<u8>) -> Option<Seq<char>>;

/// Trusted: `serde_json::from_slice::<String>`. The bytes must hold one JSON
/// string, with nothing but white space around it; the result is that string
/// with its escapes resolved, and `None` for any other input.
#[verifier::external_body]
pub(crate) fn parse_string(text: &[u8]) -> (value: Option<String>)
    ensures
        match value {
            Some(s) => json_string_value(text@) == Some(s@),
            None => json_string_value(text@).is_none(),
        },
{
    serde_json::from_slice::<String>(text).ok()
}

/// A character as it stands inside a JSON string: the quote, the backslash
/// and the control characters are escaped, every other character stands for
/// itself.
pub open spec fn escaped(c: char) -> Seq<char> {
    if c == '"' {
        seq!['\\', '"']
    } else if c == '\\' {
        seq!['\\', '\\']
    } else if c == '\u{8}' {
        seq!['\\', 'b']
    } else if c == '\t' {
        seq!['\\', 't']
    } else if c == '\n' {
        seq!['\\', 'n']
    } else if c == '\u{c}' {
        seq!['\\', 'f']
    } else if c == '\r' {
        seq!['\\', 'r']
    } else if (c as u32) < 0x20 {
        seq![
            '\\',
            'u',
            '0',
            '0',
            digit32((c as u32 / 16) as int),
            digit32((c as u32 % 16) as int),
        ]
    } else {
        seq![c]
    }
}

/// A text with each of its characters escaped.
pub open spec fn escaped_text(text: Seq<char>) -> Seq<char>
    decreases text.len(),
{
    if text.len() == 0 {
        Seq::empty()
    } else {
        escaped_text(text.drop_last()) + escaped(text.last())
    }
}

/// A string as JSON writes it: escaped, between double quotes.
pub open spec fn json_string_text(value: Seq<char>) -> Seq<char> {
    seq!['"'] + escaped_text(value) + seq!['"']
}

/// Trusted: `serde_json::to_string` on a string slice, which writes the
/// string between double quotes and escapes the quote, the backslash and the
/// characters below the space; it cannot fail for a string.
#[verifier::external_body]
pub(crate) fn quote(value: &str) -> (text: String)
    ensures
        text@ == json_string_text(value@),
{
    serde_json::to_string(value).unwrap_or_default()
}

/// The members of the JSON object that `serde_json::from_slice` decodes from
/// `text`, each a name with a string or `null`, in the order of their names;
/// `None` where the text is no such object.
pub uninterp spec fn json_object_members(text: Seq<u8>) -> Option<
    Seq<(Seq<char>, Option<Seq<char>>)>,
>;

/// The members of a decoded object, as the contracts see them.
pub open spec fn member_views(members: Seq<(String, Option<String>)>) -> Seq<
    (Seq<char>, Option<Seq<char>>),
> {
    members.map_values(
        |m: (String, Option<String>)|
            (
                m.0@,
                match m.1 {
                    Some(text) => Some(text@),
                    None => None,
                },
            ),
    )
}

/// Trusted: `serde_json::from_slice` into a map from names to strings that
/// may be `null`, handed out as a list.
#[verifier::external_body]
pub(crate) fn parse_members(text: &[u8]) -> (members: Option<Vec<(String, Option<String>)>>)
    ensures
        match members {
            Some(list) => json_object_members(text@) == Some(member_views(list@)),
            None => json_object_members(text@).is_none(),
        },
{
    match serde_json::from_slice::<std::collections::BTreeMap<String, Option<String>>>(text) {
        Ok(map) => Some(map.into_iter().collect()),
        Err(_) => None,
    }
}

} // verus!
