//! The fixed JSON payload: a one-entry object of string values, rendered
//! in the compact form that the JSON serializer produces.

use vstd::prelude::*;

verus! {

/// Whether `c` is rendered verbatim inside a JSON string: the serializer
/// escapes only the quote, the backslash and the control characters.
pub open spec fn needs_no_escape(c: char) -> bool {
    c != '"' && c != '\\' && c as int >= 32
}

/// Whether every character of `s` is rendered verbatim inside a JSON
/// string.
pub open spec fn plain_text(s: Seq<char>) -> bool {
    forall|i: int| 0 <= i < s.len() ==> needs_no_escape(#[trigger] s[i])
}

/// The compact rendering of the one-entry JSON object `{"key":"value"}`,
/// for a key and a value that need no escaping.
pub open spec fn json_object_text(key: Seq<char>, value: Seq<char>) -> Seq<char> {
    seq!['{', '"'] + key + seq!['"', ':', '"'] + value + seq!['"', '}']
}

/// Relies on serde_json::to_string on a `serde_json::Value::Object` with
/// one string entry: the compact form is `{"key":"value"}`, with the key
/// and the value rendered verbatim when none of their characters needs
/// escaping.
#[verifier::external_body]
pub(crate) fn to_json_object(key: &str, value: &str) -> (r: String)
    requires
        plain_text(key@),
        plain_text(value@),
    ensures
        r@ == json_object_text(key@, value@),
{
    let mut entries = serde_json::Map::new();
    entries.insert(key.to_string(), serde_json::Value::String(value.to_string()));
    serde_json::to_string(&serde_json::Value::Object(entries)).unwrap()
}

} // verus!
