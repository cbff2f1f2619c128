//! JSON documents as values.
//!
//! The configuration files are JSON objects. The library builds each as a
//! value and says exactly what it holds, before the JSON writer turns it into
//! text.

use vstd::prelude::*;
use vstd::string::*;
use crate::codec::{json_document, outside_document, pretty_text, render_document};
use crate::text::opt_text;

verus! {

/// A JSON value of the kinds that the configuration files hold.
#[derive(Debug, PartialEq, Eq)]
pub enum JsonValue {
    Null,
    Bool(bool),
    Number(u64),
    Text(String),
    Object(Vec<JsonField>),
}

/// One member of a JSON object.
#[derive(Debug, PartialEq, Eq)]
pub struct JsonField {
    pub key: String,
    pub value: JsonValue,
}

/// What a JSON value says.
pub enum JsonModel {
    Null,
    Bool(bool),
    Number(u64),
    Text(Seq<char>),
    /// The members in the order in which they were added.
    Object(Seq<(Seq<char>, JsonModel)>),
}

impl JsonValue {
    /// What this value says.
    pub open spec fn model(&self) -> JsonModel
        decreases self,
    {
        match self {
            JsonValue::Null => JsonModel::Null,
            JsonValue::Bool(b) => JsonModel::Bool(*b),
            JsonValue::Number(n) => JsonModel::Number(*n),
            JsonValue::Text(s) => JsonModel::Text(s@),
            JsonValue::Object(fields) => JsonModel::Object(
                Seq::new(
                    fields@.len(),
                    |i: int|
                        if 0 <= i < fields@.len() {
                            (fields@[i].key@, fields@[i].value.model())
                        } else {
                            (Seq::empty(), JsonModel::Null)
                        },
                ),
            ),
        }
    }
}

/// What the members of an object say.
pub open spec fn members(fields: Seq<JsonField>) -> Seq<(Seq<char>, JsonModel)> {
    Seq::new(fields.len(), |i: int| (fields[i].key@, fields[i].value.model()))
}

/// The JSON value of an optional port: the number, or null.
pub open spec fn port_model(port: Option<u16>) -> JsonModel {
    match port {
        Some(p) => JsonModel::Number(p as u64),
        None => JsonModel::Null,
    }
}

/// The JSON value of an optional text: the string, or null.
pub open spec fn text_or_null(s: Option<Seq<char>>) -> JsonModel {
    match s {
        Some(s) => JsonModel::Text(s),
        None => JsonModel::Null,
    }
}

/// The JSON value of an optional port.
pub fn port_value(port: Option<u16>) -> (value: JsonValue)
    ensures
        value.model() == port_model(port),
{
    match port {
        Some(p) => JsonValue::Number(p as u64),
        None => JsonValue::Null,
    }
}

/// The JSON value of a text.
pub fn text_value(text: &str) -> (value: JsonValue)
    ensures
        value.model() == JsonModel::Text(text@),
{
    JsonValue::Text(String::from_str(text))
}

/// The JSON value of an optional text.
pub fn optional_text_value(text: &Option<String>) -> (value: JsonValue)
    ensures
        value.model() == text_or_null(opt_text(*text)),
{
    match text {
        Some(s) => JsonValue::Text(s.clone()),
        None => JsonValue::Null,
    }
}

/// The members of an object that has none yet.
pub fn no_members() -> (fields: Vec<JsonField>)
    ensures
        members(fields@) == Seq::<(Seq<char>, JsonModel)>::empty(),
{
    let fields: Vec<JsonField> = Vec::new();
    assert(members(fields@) =~= Seq::<(Seq<char>, JsonModel)>::empty());
    fields
}

/// Adds a member to the members of an object under construction.
pub fn add_member(fields: &mut Vec<JsonField>, key: &str, value: JsonValue)
    ensures
        members(final(fields)@) == members(old(fields)@).push((key@, value.model())),
{
    fields.push(JsonField { key: String::from_str(key), value });
    assert(members(fields@) =~= members(old(fields)@).push((key@, value.model())));
}

/// The object with the given members.
pub fn object(fields: Vec<JsonField>) -> (value: JsonValue)
    ensures
        value.model() == JsonModel::Object(members(fields@)),
{
    let value = JsonValue::Object(fields);
    assert(value.model()->Object_0 =~= members(fields@));
    value
}

/// The pretty-printed JSON text of a document, as bytes, or the message of
/// the writer's failure.
pub open spec fn pretty_json(document: JsonModel) -> Result<Seq<u8>, Seq<char>> {
    pretty_text(outside_document(document))
}

/// Renders a document as pretty-printed JSON.
pub fn render_pretty(value: &JsonValue) -> (rendered: Result<Vec<u8>, String>)
    ensures
        (match rendered {
            Ok(bytes) => Ok(bytes@),
            Err(message) => Err(message@),
        }) == pretty_json(value.model()),
{
    let document = json_document(value);
    render_document(&document)
}

/// A file for the host to write: the directory that must exist first, the
/// path, and the bytes.
#[derive(Clone, Debug, PartialEq, Eq)]
pub struct FileWrite {
    pub dir: String,
    pub path: String,
    pub contents: Vec<u8>,
}

pub struct FileWriteView {
    pub dir: Seq<char>,
    pub path: Seq<char>,
    pub contents: Seq<u8>,
}

impl View for FileWrite {
    type V = FileWriteView;

    open spec fn view(&self) -> FileWriteView {
        FileWriteView { dir: self.dir@, path: self.path@, contents: self.contents@ }
    }
}

} // verus!
