//! From JSON text to a `JsonValue`, by way of `serde_json`.

use crate::json::{Json, JsonValue};
use vstd::prelude::*;

verus! {

#[verifier::external_type_specification]
#[verifier::external_body]
pub struct ExValue(serde_json::Value);

#[verifier::external_type_specification]
#[verifier::external_body]
#[verifier::reject_recursive_types(K)]
#[verifier::reject_recursive_types(V)]
pub struct ExMembers<K, V>(serde_json::Map<K, V>);

#[verifier::external_type_specification]
#[verifier::external_body]
pub struct ExError(serde_json::Error);

/// What `serde_json::from_str` makes of a text: the document it reads, or
/// the message of the error it reports.
pub uninterp spec fn parsed_text(text: Seq<char>) -> Result<Json, Seq<char>>;

/// The document that a `serde_json::Value` holds.
pub uninterp spec fn value_json(v: serde_json::Value) -> Json;

/// The members that a `serde_json::Map` holds, in the order in which it
/// hands them out.
pub uninterp spec fn map_members(m: serde_json::Map<String, serde_json::Value>) -> Seq<
    (Seq<char>, Json),
>;

/// The message that a `serde_json::Error` displays.
pub uninterp spec fn error_text(e: serde_json::Error) -> Seq<char>;

/// The documents that a sequence of values holds, one for one.
pub open spec fn values_json(items: Seq<serde_json::Value>) -> Seq<Json> {
    Seq::new(items.len(), |i: int| value_json(items[i]))
}

/// The members that a sequence of borrowed entries holds, one for one.
pub open spec fn entries_json(entries: Seq<(&String, &serde_json::Value)>) -> Seq<
    (Seq<char>, Json),
> {
    Seq::new(entries.len(), |i: int| (entries[i].0@, value_json(*entries[i].1)))
}

/// The outermost level of a `serde_json::Value`.
enum Shape<'a> {
    Null,
    Bool(bool),
    Number,
    Text(&'a String),
    Array(&'a Vec<serde_json::Value>),
    Object(&'a serde_json::Map<String, serde_json::Value>),
}

/// `serde_json::from_str`, read as a `serde_json::Value`. Claimed: the value
/// or the error that comes back is the one that `parsed_text` names for
/// this text.
#[verifier::external_body]
fn from_str(text: &str) -> (r: Result<serde_json::Value, serde_json::Error>)
    ensures
        match r {
            Ok(v) => parsed_text(text@) == Ok::<Json, Seq<char>>(value_json(v)),
            Err(e) => parsed_text(text@) == Err::<Json, Seq<char>>(error_text(e)),
        },
{
    serde_json::from_str::<serde_json::Value>(text)
}

/// `Display` of `serde_json::Error`, through `to_string`. Claimed: the
/// string holds the message that `error_text` names.
#[verifier::external_body]
fn error_message(e: &serde_json::Error) -> (r: String)
    ensures
        r@ == error_text(*e),
{
    e.to_string()
}

/// The variants of `serde_json::Value`, told apart. Claimed: the document
/// that the value holds is of the variant's kind, with the variant's field
/// as its content.
#[verifier::external_body]
fn shape<'a>(v: &'a serde_json::Value) -> (r: Shape<'a>)
    ensures
        match r {
            Shape::Null => value_json(*v) == Json::Null,
            Shape::Bool(b) => value_json(*v) == Json::Bool(b),
            Shape::Number => value_json(*v) is Integer || value_json(*v) is Number,
            Shape::Text(s) => value_json(*v) == Json::Text(s@),
            Shape::Array(items) => value_json(*v) == Json::Array(values_json(items@)),
            Shape::Object(m) => value_json(*v) == Json::Object(map_members(*m)),
        },
{
    match v {
        serde_json::Value::Null => Shape::Null,
        serde_json::Value::Bool(b) => Shape::Bool(*b),
        serde_json::Value::Number(_) => Shape::Number,
        serde_json::Value::String(s) => Shape::Text(s),
        serde_json::Value::Array(items) => Shape::Array(items),
        serde_json::Value::Object(m) => Shape::Object(m),
    }
}

/// `serde_json::Value::as_i64`. Claimed: the document is an `Integer`
/// exactly where an integer comes back, and then it is that integer.
#[verifier::external_body]
fn as_i64(v: &serde_json::Value) -> (r: Option<i64>)
    ensures
        match r {
            Some(i) => value_json(*v) == Json::Integer(i as int),
            None => !(value_json(*v) is Integer),
        },
{
    v.as_i64()
}

/// `serde_json::Map::iter`, collected. Claimed: the entries are the map's
/// members, in its order.
#[verifier::external_body]
fn members<'a>(m: &'a serde_json::Map<String, serde_json::Value>) -> (r: Vec<
    (&'a String, &'a serde_json::Value),
>)
    ensures
        entries_json(r@) == map_members(*m),
{
    m.iter().collect()
}

/// The `JsonValue` that a `serde_json::Value` holds.
fn lift(v: &serde_json::Value) -> (r: JsonValue)
    ensures
        r@ == value_json(*v),
    decreases value_json(*v),
{
    match shape(v) {
        Shape::Null => JsonValue::Null,
        Shape::Bool(b) => JsonValue::Bool(b),
        Shape::Number => match as_i64(v) {
            Some(i) => JsonValue::Integer(i),
            None => JsonValue::Number,
        },
        Shape::Text(s) => JsonValue::Text(s.clone()),
        Shape::Array(items) => {
            let mut out: Vec<JsonValue> = Vec::new();
            let mut i: usize = 0;
            while i < items.len()
                invariant
                    i <= items.len(),
                    out@.len() == i,
                    value_json(*v) == Json::Array(values_json(items@)),
                    forall|k: int| 0 <= k < i ==> (#[trigger] out@[k])@ == value_json(items@[k]),
                decreases items.len() - i,
            {
                proof {
                    let doc = value_json(*v);
                    assert(doc->Array_0[i as int] == value_json(items@[i as int]));
                    assert(decreases_to!(doc => doc->Array_0));
                    assert(decreases_to!(doc->Array_0 => doc->Array_0[i as int]));
                }
                let item = lift(&items[i]);
                out.push(item);
                i = i + 1;
            }
            let r = JsonValue::Array(out);
            assert(r@->Array_0 =~= values_json(items@));
            r
        },
        Shape::Object(m) => {
            let entries = members(m);
            let mut out: Vec<(String, JsonValue)> = Vec::new();
            let mut i: usize = 0;
            while i < entries.len()
                invariant
                    i <= entries.len(),
                    out@.len() == i,
                    value_json(*v) == Json::Object(entries_json(entries@)),
                    forall|k: int| 0 <= k < i ==> {
                        &&& (#[trigger] out@[k]).0@ == entries@[k].0@
                        &&& out@[k].1@ == value_json(*entries@[k].1)
                    },
                decreases entries.len() - i,
            {
                proof {
                    let doc = value_json(*v);
                    assert(doc->Object_0[i as int].1 == value_json(*entries@[i as int].1));
                    assert(decreases_to!(doc => doc->Object_0));
                    assert(decreases_to!(doc->Object_0 => doc->Object_0[i as int]));
                    assert(decreases_to!(doc->Object_0[i as int] => doc->Object_0[i as int].1));
                }
                let key = entries[i].0.clone();
                let value = lift(entries[i].1);
                out.push((key, value));
                i = i + 1;
            }
            let r = JsonValue::Object(out);
            assert(r@->Object_0 =~= entries_json(entries@));
            r
        },
    }
}

/// The error of a text that is no JSON: a fixed prefix, then the parser's
/// own message.
pub open spec fn parse_failure(message: Seq<char>) -> Seq<char> {
    "JSON解析失败: "@ + message
}

/// What `parse_json` returns for a text, given what the parser makes of it.
pub open spec fn parse_outcome(parsed: Result<Json, Seq<char>>) -> Result<Json, Seq<char>> {
    match parsed {
        Ok(doc) => Ok(doc),
        Err(message) => Err(parse_failure(message)),
    }
}

/// What a result of `parse_json` holds.
pub open spec fn json_result(r: Result<JsonValue, String>) -> Result<Json, Seq<char>> {
    match r {
        Ok(doc) => Ok(doc@),
        Err(e) => Err(e@),
    }
}

/// Reads a JSON text. A text that is no JSON gives the parser's message
/// behind a fixed prefix.
pub fn parse_json(text: &str) -> (r: Result<JsonValue, String>)
    ensures
        json_result(r) == parse_outcome(parsed_text(text@)),
{
    match from_str(text) {
        Ok(v) => Ok(lift(&v)),
        Err(e) => {
            let mut out = String::from_str("JSON解析失败: ");
            let message = error_message(&e);
            out.append(message.as_str());
            Err(out)
        },
    }
}

} // verus!
