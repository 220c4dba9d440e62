//! The two JSON operations that the wire frames rest on: writing a string as a
//! JSON string literal, and reading a string member out of a JSON document.

use vstd::prelude::*;

verus! {

/// The JSON string literal that `serde_json` writes for `text`: the text in
/// double quotes, with the characters that JSON does not allow in a string
/// escaped.
pub uninterp spec fn json_string_literal(text: Seq<char>) -> Seq<char>;

/// What `serde_json` finds under `key` in the document `text`: the string
/// stored there, or `None` where the text is no JSON document, the document is
/// no object, the object has no such member, or the member is no string.
pub uninterp spec fn json_string_member(text: Seq<char>, key: Seq<char>) -> Option<Seq<char>>;

/// The view of an optional string.
pub open spec fn text_view(text: Option<String>) -> Option<Seq<char>> {
    match text {
        Some(s) => Some(s@),
        None => None,
    }
}

/// Writes `text` as a JSON string literal, by the `Display` of
/// `serde_json::Value::String`. Trusted: the result is the literal that
/// `serde_json` writes for this text.
#[verifier::external_body]
pub(crate) fn quote(text: &str) -> (literal: String)
    ensures
        literal@ == json_string_literal(text@),
{
    serde_json::Value::String(text.to_owned()).to_string()
}

/// Parses `text` with `serde_json::from_str` into a `serde_json::Value`, looks
/// `key` up with `Value::get` and reads the member with `Value::as_str`.
/// Trusted: the result is the string that these three calls find, `None` as
/// soon as one of them finds nothing.
#[verifier::external_body]
pub(crate) fn string_member(text: &str, key: &str) -> (member: Option<String>)
    ensures
        text_view(member) == json_string_member(text@, key@),
{
    let document: serde_json::Value = serde_json::from_str(text).ok()?;
    let member = document.get(key)?;
    Some(member.as_str()?.to_owned())
}

} // verus!
