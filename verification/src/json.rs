//! JSON documents, read with `serde_json`.
//!
//! Parsing is left to `serde_json`; this module gives a parsed document a
//! mathematical model and states, for each accessor the crate calls, what it
//! returns in terms of that model. Those statements are assumed, not proved.

use serde_json::Value;
use vstd::prelude::*;

verus! {

/// `serde_json::Value`, a parsed document. Nothing is known of one but
/// what the accessors below say.
#[verifier::external_type_specification]
#[verifier::external_body]
pub struct ExValue(serde_json::Value);

/// `serde_json::Error`, the parser's account of a text that is not JSON.
#[verifier::external_type_specification]
#[verifier::external_body]
pub struct ExError(serde_json::Error);

/// A JSON document as a mathematical value.
///
/// Numbers are kept only as a kind: nothing in this crate reads one.
pub enum Json {
    Null,
    Bool(bool),
    Number,
    Text(Seq<char>),
    Array(Seq<Json>),
    Object(Map<Seq<char>, Json>),
}

/// The document that a `serde_json::Value` holds.
pub uninterp spec fn document(value: Value) -> Json;

/// The document that `serde_json` reads out of a text, `None` where it
/// reads none: the text is not JSON, or is nested deeper or holds a number
/// larger than the parser takes.
pub uninterp spec fn parsed(text: Seq<char>) -> Option<Json>;

impl Json {
    /// The member of an object under `key`, if `self` is an object that has one.
    pub open spec fn member(self, key: Seq<char>) -> Option<Json> {
        match self {
            Json::Object(members) if members.dom().contains(key) => Some(members[key]),
            _ => None,
        }
    }
}

/// `serde_json::from_str` at type `Value`. What it returns depends on the
/// text alone: `Ok` with the document read out of it, or `Err` where there
/// is none.
#[verifier::external_body]
pub(crate) fn parse(text: &str) -> (result: Result<Value, serde_json::Error>)
    ensures
        match result {
            Ok(value) => parsed(text@) == Some(document(value)),
            Err(_) => parsed(text@) is None,
        },
{
    serde_json::from_str(text)
}

/// `Value::get` with a string key: the member under `key` where the value is
/// an object that has one, `None` otherwise.
#[verifier::external_body]
pub(crate) fn member<'a>(value: &'a Value, key: &str) -> (result: Option<&'a Value>)
    ensures
        match result {
            Some(found) => document(*value).member(key@) == Some(document(*found)),
            None => document(*value).member(key@) is None,
        },
{
    value.get(key)
}

/// `Value::as_str`: the text where the value is a string, `None` otherwise.
#[verifier::external_body]
pub(crate) fn as_text<'a>(value: &'a Value) -> (result: Option<&'a str>)
    ensures
        match result {
            Some(text) => document(*value) == Json::Text(text@),
            None => !(document(*value) is Text),
        },
{
    value.as_str()
}

/// `Value::as_array`: the items where the value is an array, `None` otherwise.
#[verifier::external_body]
pub(crate) fn as_items<'a>(value: &'a Value) -> (result: Option<&'a Vec<Value>>)
    ensures
        match result {
            Some(items) => document(*value) == Json::Array(
                items@.map_values(|item: Value| document(item)),
            ),
            None => !(document(*value) is Array),
        },
{
    value.as_array()
}

/// `Value::is_null`.
#[verifier::external_body]
pub(crate) fn is_null(value: &Value) -> (result: bool)
    ensures
        result == (document(*value) is Null),
{
    value.is_null()
}

} // verus!
