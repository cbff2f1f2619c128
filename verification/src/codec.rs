//! The calls into other crates: random bytes, base64 text and JSON.
//!
//! Nothing in this file is proved. Each function states what the crate it
//! calls is relied on to do, and the rest of the library is proved from that.

use rand::RngCore;
use base64::Engine;
use vstd::prelude::*;
use vstd::string::*;
use crate::json::{JsonModel, JsonValue};

verus! {

/// The URL-safe base64 text of `bytes`, without padding.
pub uninterp spec fn base64_url(bytes: Seq<u8>) -> Seq<char>;

/// The length of the unpadded base64 text of `count` bytes: four characters
/// for every three bytes, and one more than the bytes left over.
pub open spec fn base64_len(count: nat) -> nat {
    (count / 3) * 4 + if count % 3 == 0 {
        0
    } else {
        count % 3 + 1
    }
}

/// The `serde_json::Value` that the JSON crate holds for a document.
pub uninterp spec fn outside_document(document: JsonModel) -> serde_json::Value;

/// The pretty-printed JSON text of what a `serde_json::Value` holds, as
/// bytes, or the message of the writer's failure.
pub uninterp spec fn pretty_text(document: serde_json::Value) -> Result<Seq<u8>, Seq<char>>;

/// What the JSON reader makes of a text: the `serde_json::Value` that it
/// holds, or the message with which the reader rejects it.
pub uninterp spec fn parsed_json(raw: Seq<char>) -> Result<serde_json::Value, Seq<char>>;

/// The string that a JSON object holds under `key`.
pub uninterp spec fn text_member(document: serde_json::Value, key: Seq<char>) -> Option<Seq<char>>;

/// The unsigned integer that a JSON object holds under `key`.
pub uninterp spec fn number_member(document: serde_json::Value, key: Seq<char>) -> Option<u64>;

/// The boolean that a JSON object holds under `key`.
pub uninterp spec fn flag_member(document: serde_json::Value, key: Seq<char>) -> Option<bool>;

/// `s` without the white space at its beginning and end.
pub uninterp spec fn trimmed(s: Seq<char>) -> Seq<char>;

#[verifier::external_type_specification]
#[verifier::external_body]
pub struct ExJsonDocument(serde_json::Value);

/// `rand::thread_rng` and `RngCore::fill_bytes`: `count` bytes from the
/// thread's generator, which the system seeds. Only their number is known.
/// The generator panics where the system gives it no seed.
#[verifier::external_body]
pub(crate) fn random_bytes(count: usize) -> (bytes: Vec<u8>)
    ensures
        bytes@.len() == count,
{
    let mut bytes = vec![0u8; count];
    rand::thread_rng().fill_bytes(&mut bytes);
    bytes
}

/// `Engine::encode` of `base64::engine::general_purpose::URL_SAFE_NO_PAD`: the
/// base64 text of the bytes in the URL-safe alphabet, without padding. The
/// text has one character for each byte that the crate's `encoded_len`
/// computes. The bound keeps that length within `usize`, short of which the
/// crate panics.
#[verifier::external_body]
pub(crate) fn encode_base64_url(bytes: &Vec<u8>) -> (text: String)
    requires
        bytes@.len() <= 0x2000_0000,
    ensures
        text@ == base64_url(bytes@),
        text@.len() == base64_len(bytes@.len()),
{
    base64::engine::general_purpose::URL_SAFE_NO_PAD.encode(bytes)
}

/// The constructors of `serde_json::Value`: null, `From<bool>`, `From<u64>`,
/// `From<&str>`, and `Value::Object` of the members converted in turn. The
/// value depends on what `value` holds and on nothing else.
#[verifier::external_body]
pub(crate) fn json_document(value: &JsonValue) -> (document: serde_json::Value)
    ensures
        document == outside_document(value.model()),
{
    match value {
        JsonValue::Null => serde_json::Value::Null,
        JsonValue::Bool(flag) => serde_json::Value::from(*flag),
        JsonValue::Number(number) => serde_json::Value::from(*number),
        JsonValue::Text(text) => serde_json::Value::from(text.as_str()),
        JsonValue::Object(fields) => serde_json::Value::Object(
            fields.iter().map(|f| (f.key.clone(), json_document(&f.value))).collect(),
        ),
    }
}

/// `serde_json::to_vec_pretty`: the indented JSON text of the document, or
/// the writer's error as a message. The text depends on what the document
/// holds and on nothing else.
#[verifier::external_body]
pub(crate) fn render_document(document: &serde_json::Value) -> (rendered: Result<Vec<u8>, String>)
    ensures
        (match rendered {
            Ok(bytes) => Ok(bytes@),
            Err(message) => Err(message@),
        }) == pretty_text(*document),
{
    serde_json::to_vec_pretty(document).map_err(|e| e.to_string())
}

/// `serde_json::from_str` into a `serde_json::Value`: the value that the
/// text holds, or the reader's error as a message. Both depend on the text
/// and on nothing else.
#[verifier::external_body]
pub(crate) fn parse_json(raw: &str) -> (parsed: Result<serde_json::Value, String>)
    ensures
        (match parsed {
            Ok(document) => Ok(document),
            Err(message) => Err(message@),
        }) == parsed_json(raw@),
{
    serde_json::from_str::<serde_json::Value>(raw).map_err(|e| e.to_string())
}

/// `Value::get` and `Value::as_str`: the string that the document holds
/// under `key`. There is none where the document is no object, lacks the key
/// or holds something else there.
#[verifier::external_body]
pub(crate) fn text_of(document: &serde_json::Value, key: &str) -> (value: Option<String>)
    ensures
        (match value {
            Some(text) => Some(text@),
            None => None,
        }) == text_member(*document, key@),
{
    document.get(key)?.as_str().map(|s| s.to_string())
}

/// `Value::get` and `Value::as_u64`: the unsigned integer that the document
/// holds under `key`, if it holds one there.
#[verifier::external_body]
pub(crate) fn number_of(document: &serde_json::Value, key: &str) -> (value: Option<u64>)
    ensures
        value == number_member(*document, key@),
{
    document.get(key)?.as_u64()
}

/// `Value::get` and `Value::as_bool`: the boolean that the document holds
/// under `key`, if it holds one there.
#[verifier::external_body]
pub(crate) fn flag_of(document: &serde_json::Value, key: &str) -> (value: Option<bool>)
    ensures
        value == flag_member(*document, key@),
{
    document.get(key)?.as_bool()
}

/// `str::trim`: the text without leading and trailing white space.
#[verifier::external_body]
pub(crate) fn trim(s: &str) -> (t: String)
    ensures
        t@ == trimmed(s@),
{
    s.trim().to_string()
}

} // verus!
