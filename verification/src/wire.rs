//! The JSON and base64 primitives of the wire formats. Reading and quoting
//! JSON is the work of `serde_json`, the audio payload encoding that of
//! `base64`; what they return is named here and used as given.

use vstd::prelude::*;

verus! {

/// The string member `key` of the JSON object written in `text`; `None`
/// where `text` is no JSON document, the document is no object, the object
/// has no such member, or the member is no string.
pub uninterp spec fn json_member_str(text: Seq<char>, key: Seq<char>) -> Option<Seq<char>>;

/// The string member `inner` of the member `outer` of the JSON object
/// written in `text`; `None` where any step of that path is missing or the
/// last one is no string.
pub uninterp spec fn json_nested_str(text: Seq<char>, outer: Seq<char>, inner: Seq<char>) -> Option<
    Seq<char>,
>;

/// The JSON document written in `text`, written out again in compact form;
/// `None` where `text` is no JSON document.
pub uninterp spec fn json_compact(text: Seq<char>) -> Option<Seq<char>>;

/// The JSON document written in `text`, written out again in indented form,
/// one member or element to a line; `None` where `text` is no JSON document
/// or the document cannot be written so.
pub uninterp spec fn json_pretty(text: Seq<char>) -> Option<Seq<char>>;

/// The JSON string literal for `s`: quoted and escaped.
pub uninterp spec fn json_quoted(s: Seq<char>) -> Seq<char>;

/// The standard, padded base64 text of `bytes`.
pub uninterp spec fn base64_standard(bytes: Seq<u8>) -> Seq<char>;

/// The characters of an optional string.
pub open spec fn text_of(o: Option<String>) -> Option<Seq<char>> {
    match o {
        Some(s) => Some(s@),
        None => None,
    }
}

/// Parses `text` with `serde_json::from_str` into a `serde_json::Value` and
/// reads the member `key` with `Value::get` and `Value::as_str`. The result
/// is believed to be a function of the two texts alone.
#[verifier::external_body]
pub(crate) fn read_member_str(text: &str, key: &str) -> (found: Option<String>)
    ensures
        text_of(found) == json_member_str(text@, key@),
{
    let doc: serde_json::Value = serde_json::from_str(text).ok()?;
    doc.get(key)?.as_str().map(|s| s.to_owned())
}

/// Parses `text` with `serde_json::from_str` into a `serde_json::Value` and
/// reads the member `inner` of its member `outer` with `Value::get` and
/// `Value::as_str`. The result is believed to be a function of the three
/// texts alone.
#[verifier::external_body]
pub(crate) fn read_nested_str(text: &str, outer: &str, inner: &str) -> (found: Option<String>)
    ensures
        text_of(found) == json_nested_str(text@, outer@, inner@),
{
    let doc: serde_json::Value = serde_json::from_str(text).ok()?;
    doc.get(outer)?.get(inner)?.as_str().map(|s| s.to_owned())
}

/// Parses `text` with `serde_json::from_str` into a `serde_json::Value` and
/// writes the value out again through its `Display` impl. The result is
/// believed to be a function of the text alone.
#[verifier::external_body]
pub(crate) fn read_compact(text: &str) -> (doc: Option<String>)
    ensures
        text_of(doc) == json_compact(text@),
{
    let doc: serde_json::Value = serde_json::from_str(text).ok()?;
    Some(doc.to_string())
}

/// Parses `text` with `serde_json::from_str` into a `serde_json::Value` and
/// writes the value out again with `serde_json::to_string_pretty`. The
/// result is believed to be a function of the text alone.
#[verifier::external_body]
pub(crate) fn read_pretty(text: &str) -> (doc: Option<String>)
    ensures
        text_of(doc) == json_pretty(text@),
{
    let doc: serde_json::Value = serde_json::from_str(text).ok()?;
    serde_json::to_string_pretty(&doc).ok()
}

/// Writes `s` as a JSON string literal, through the `Display` impl of
/// `serde_json::Value::String`. The result is believed to be a function of
/// the text alone.
#[verifier::external_body]
pub(crate) fn quote(s: &str) -> (literal: String)
    ensures
        literal@ == json_quoted(s@),
{
    serde_json::Value::String(s.to_owned()).to_string()
}

/// Encodes `bytes` with `base64::Engine::encode` on the engine
/// `base64::engine::general_purpose::STANDARD`. The result is believed to be
/// a function of the bytes alone.
#[verifier::external_body]
pub(crate) fn encode_base64(bytes: &[u8]) -> (encoded: String)
    ensures
        encoded@ == base64_standard(bytes@),
{
    base64::Engine::encode(&base64::engine::general_purpose::STANDARD, bytes)
}

/// Whether two texts are the same.
pub fn same_text(a: &str, b: &str) -> (same: bool)
    ensures
        same == (a@ == b@),
{
    let left = String::from_str(a);
    let right = String::from_str(b);
    left == right
}

} // verus!
