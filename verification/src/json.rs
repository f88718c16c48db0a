//! JSON documents. The values are `serde_json`'s; what is known of a value is
//! the document that it holds, and of its text that it depends on the
//! document alone.

use crate::text::decimal;
use vstd::prelude::*;

verus! {

/// A JSON document.
pub enum Doc {
    /// `null`.
    Null,
    /// `true` or `false`.
    Bool(bool),
    /// A number, by the text that stands for it.
    Number(Seq<char>),
    /// A string.
    Text(Seq<char>),
    /// An array.
    List(Seq<Doc>),
    /// An object: its members by key.
    Object(Map<Seq<char>, Doc>),
}

impl Doc {
    /// An object without members.
    pub open spec fn empty() -> Doc {
        Doc::Object(Map::empty())
    }

    /// The document with the member `key` set to `item` where the document is
    /// an object, and unchanged where it is not.
    pub open spec fn with(self, key: Seq<char>, item: Doc) -> Doc {
        match self {
            Doc::Object(members) => Doc::Object(members.insert(key, item)),
            _ => self,
        }
    }

    /// The string that is the member `key` of the document, if the document
    /// is an object with such a member and the member is a string.
    pub open spec fn text_at(self, key: Seq<char>) -> Option<Seq<char>> {
        match self {
            Doc::Object(members) => if members.contains_key(key) {
                match members[key] {
                    Doc::Text(text) => Some(text),
                    _ => None,
                }
            } else {
                None
            },
            _ => None,
        }
    }
}

/// `serde_json::Value`, of which only the document that it holds is known.
#[verifier::external_type_specification]
#[verifier::external_body]
pub struct ExValue(serde_json::Value);

/// `serde_json::Error`, of which nothing is known.
#[verifier::external_type_specification]
#[verifier::external_body]
pub struct ExJsonError(serde_json::Error);

/// The document that a value holds.
pub uninterp spec fn doc_of(value: serde_json::Value) -> Doc;

/// The compact text of a document, as `serde_json` writes it.
pub uninterp spec fn doc_text(doc: Doc) -> Seq<char>;

/// The document that a run of bytes is read as, if they are JSON.
pub uninterp spec fn parsed(bytes: Seq<u8>) -> Option<Doc>;

/// The documents that a list of values holds.
pub open spec fn docs_of(values: Seq<serde_json::Value>) -> Seq<Doc> {
    values.map_values(|v: serde_json::Value| doc_of(v))
}

/// `serde_json::Value::Null`.
#[verifier::external_body]
pub(crate) fn null() -> (value: serde_json::Value)
    ensures
        doc_of(value) == Doc::Null,
{
    serde_json::Value::Null
}

/// `serde_json::Value::Bool`.
#[verifier::external_body]
pub(crate) fn boolean(b: bool) -> (value: serde_json::Value)
    ensures
        doc_of(value) == Doc::Bool(b),
{
    serde_json::Value::Bool(b)
}

/// `serde_json::Value::from` on an `i64`: a number that is written in
/// decimal.
#[verifier::external_body]
pub(crate) fn integer(n: i64) -> (value: serde_json::Value)
    ensures
        doc_of(value) == Doc::Number(decimal(n as int)),
{
    serde_json::Value::from(n)
}

/// `serde_json::Value::String`.
#[verifier::external_body]
pub(crate) fn text(s: &str) -> (value: serde_json::Value)
    ensures
        doc_of(value) == Doc::Text(s@),
{
    serde_json::Value::String(s.to_owned())
}

/// `serde_json::Value::Array`.
#[verifier::external_body]
pub(crate) fn list(items: Vec<serde_json::Value>) -> (value: serde_json::Value)
    ensures
        doc_of(value) == Doc::List(items@.map_values(|v: serde_json::Value| doc_of(v))),
{
    serde_json::Value::Array(items)
}

/// `serde_json::Value::Object` of `serde_json::Map::new()`.
#[verifier::external_body]
pub(crate) fn object() -> (value: serde_json::Value)
    ensures
        doc_of(value) == Doc::empty(),
{
    serde_json::Value::Object(serde_json::Map::new())
}

/// `serde_json::Value::as_object_mut`, and on the map that it gives
/// `serde_json::Map::insert`, which sets the member and replaces one that was
/// there. A value that is no object gives no map and stays as it is.
#[verifier::external_body]
pub(crate) fn set(value: &mut serde_json::Value, key: &str, item: serde_json::Value)
    ensures
        doc_of(*final(value)) == doc_of(*old(value)).with(key@, doc_of(item)),
{
    value.as_object_mut().map(|members| members.insert(key.to_owned(), item));
}

/// `serde_json::Value::get` with a string key, then `Value::as_str`: the
/// member of an object under that key where it is a string.
#[verifier::external_body]
pub(crate) fn text_at(value: &serde_json::Value, key: &str) -> (found: Option<String>)
    ensures
        match found {
            Some(t) => doc_of(*value).text_at(key@) == Some(t@),
            None => doc_of(*value).text_at(key@) is None,
        },
{
    value.get(key).and_then(serde_json::Value::as_str).map(str::to_owned)
}

/// `serde_json::Value`'s `Display`: the compact text of the value, which
/// depends on the document alone. Members of an object come in the order of
/// their keys (the crate is built without its feature `preserve_order`).
#[verifier::external_body]
pub(crate) fn render(value: &serde_json::Value) -> (written: String)
    ensures
        written@ == doc_text(doc_of(*value)),
{
    value.to_string()
}

/// `serde_json::from_slice` into a `serde_json::Value`: the document that the
/// bytes spell, or an error where they are not read as one JSON document.
#[verifier::external_body]
fn from_slice(bytes: &[u8]) -> (read: Result<serde_json::Value, serde_json::Error>)
    ensures
        match read {
            Ok(v) => parsed(bytes@) == Some(doc_of(v)),
            Err(_) => parsed(bytes@) is None,
        },
{
    serde_json::from_slice::<serde_json::Value>(bytes)
}

/// The value that the bytes are read as, if they are JSON.
pub fn parse(bytes: &[u8]) -> (value: Option<serde_json::Value>)
    ensures
        match value {
            Some(v) => parsed(bytes@) == Some(doc_of(v)),
            None => parsed(bytes@) is None,
        },
{
    match from_slice(bytes) {
        Ok(v) => Some(v),
        Err(_) => None,
    }
}

} // verus!
