//! Trusted bindings to the outside decoding crates.
//!
//! Each binding names what the outside call returns and states only what
//! the crate's own documentation promises; everything downstream is
//! proved against these names.

use vstd::prelude::*;

verus! {

/// The characters a byte sequence decodes to under UTF-8, if it is valid.
pub uninterp spec fn utf8_chars(b: Seq<u8>) -> Option<Seq<char>>;

/// Relies on `core::str::from_utf8`: whether bytes are valid UTF-8, and
/// which characters they decode to, are functions of the bytes alone.
#[verifier::external_body]
pub fn utf8_to_string(b: &[u8]) -> (r: Option<String>)
    ensures
        r is Some <==> utf8_chars(b@) is Some,
        r matches Some(s) ==> Some(s@) == utf8_chars(b@),
{
    match core::str::from_utf8(b) {
        Ok(s) => Some(s.to_owned()),
        Err(_) => None,
    }
}

/// Whether a text parses as a JSON document.
pub uninterp spec fn json_doc_ok(doc: Seq<char>) -> bool;

/// Relies on `serde_json::from_str::<Value>`: whether a text is valid
/// JSON is a function of the text alone.
#[verifier::external_body]
pub fn json_doc_valid(doc: &str) -> (r: bool)
    ensures
        r == json_doc_ok(doc@),
{
    serde_json::from_str::<serde_json::Value>(doc).is_ok()
}

/// The string value of the top-level field `key` of the JSON document
/// `doc`, if `doc` parses, has that field, and the field holds a string.
pub uninterp spec fn json_str_field(doc: Seq<char>, key: Seq<char>) -> Option<Seq<char>>;

/// Relies on `serde_json::from_str::<Value>`, `Value::get` and
/// `Value::as_str`: the string value of a top-level field is a function
/// of the document text and the key alone; `get` returns `None` on a
/// document that is not an object, and `as_str` returns `None` on a
/// field that is not a string.
#[verifier::external_body]
pub fn json_get_str(doc: &str, key: &str) -> (r: Option<String>)
    ensures
        r is Some <==> json_str_field(doc@, key@) is Some,
        r matches Some(s) ==> Some(s@) == json_str_field(doc@, key@),
        r is Some ==> json_doc_ok(doc@),
{
    match serde_json::from_str::<serde_json::Value>(doc) {
        Ok(v) => v.get(key).and_then(|f| f.as_str()).map(|s| s.to_owned()),
        Err(_) => None,
    }
}

/// The bytes a text decodes to under standard base64, if it is valid.
pub uninterp spec fn b64_bytes(text: Seq<char>) -> Option<Seq<u8>>;

/// Relies on base64's standard-alphabet engine `decode`: whether a text
/// is valid base64, and the bytes it decodes to, are functions of the
/// text alone.
#[verifier::external_body]
pub fn b64_decode(text: &str) -> (r: Option<Vec<u8>>)
    ensures
        r is Some <==> b64_bytes(text@) is Some,
        r matches Some(v) ==> Some(v@) == b64_bytes(text@),
{
    match base64::Engine::decode(&base64::engine::general_purpose::STANDARD, text) {
        Ok(v) => Some(v),
        Err(_) => None,
    }
}

} // verus!
