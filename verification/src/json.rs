//! JSON values and what the rest of the crate knows of them.
//!
//! Values are `serde_json::Value`. The verifier cannot look inside one, so
//! this module gives every value a mathematical model, [`JsonModel`], and
//! states over that model what each `serde_json` operation used by the crate
//! does. Those statements are taken on trust from `serde_json`; everything
//! else in the crate is proved from them.

use vstd::prelude::*;
use serde_json::Value;

verus! {

/// A JSON number as far as this crate tells numbers apart.
pub enum JsonNumber {
    /// A number stored as an integer, anywhere from `i64::MIN` to `u64::MAX`.
    Integer(int),
    /// A number stored with a fractional representation.
    Fraction,
}

/// The mathematical model of a JSON value.
pub enum JsonModel {
    Null,
    Bool(bool),
    Number(JsonNumber),
    Text(Seq<char>),
    Array(Seq<JsonModel>),
    Object(Map<Seq<char>, JsonModel>),
}

/// `serde_json::Value`, a JSON value. Nothing of its inside is visible here.
#[verifier::external_type_specification]
#[verifier::external_body]
pub struct ExValue(serde_json::Value);

/// `serde_json::Map`, the members of a JSON object, each key once.
#[verifier::external_type_specification]
#[verifier::external_body]
#[verifier::reject_recursive_types(K)]
#[verifier::reject_recursive_types(V)]
pub struct ExObject<K, V>(serde_json::Map<K, V>);

/// `serde_json::Error`, why an encoding or a decoding failed.
#[verifier::external_type_specification]
#[verifier::external_body]
pub struct ExJsonError(serde_json::Error);

/// The model of a `serde_json::Value`: the JSON document that it holds.
pub uninterp spec fn json_model(v: Value) -> JsonModel;

/// The members of a `serde_json::Map`, each key with the model of its value.
pub uninterp spec fn object_members(m: serde_json::Map<String, Value>) -> Map<Seq<char>, JsonModel>;

/// The members of an object that has none.
pub open spec fn no_members() -> Map<Seq<char>, JsonModel> {
    Map::empty()
}

/// `Value::Null`: the value whose model is `Null`.
#[verifier::external_body]
pub(crate) fn null_value() -> (v: Value)
    ensures
        json_model(v) == JsonModel::Null,
{
    Value::Null
}

/// `Value::from(i64)`: a number stored as the integer `n`.
#[verifier::external_body]
pub(crate) fn integer_value(n: i64) -> (v: Value)
    ensures
        json_model(v) == JsonModel::Number(JsonNumber::Integer(n as int)),
{
    Value::from(n)
}

/// `Value::from(String)`: the JSON string with the characters of `s`.
#[verifier::external_body]
pub(crate) fn text_value(s: String) -> (v: Value)
    ensures
        json_model(v) == JsonModel::Text(s@),
{
    Value::from(s)
}

/// `Value::from(Map)`: the JSON object with the members of `m`.
#[verifier::external_body]
pub(crate) fn object_value(m: serde_json::Map<String, Value>) -> (v: Value)
    ensures
        json_model(v) == JsonModel::Object(object_members(m)),
{
    Value::from(m)
}

/// `Value::clone`: a second value holding the same document.
pub assume_specification[ <serde_json::Value as Clone>::clone ](v: &Value) -> (r: Value)
    ensures
        json_model(r) == json_model(*v),
;

/// `Value::as_object`: the map inside an object, `None` for any other value.
/// The map has finitely many members.
#[verifier::external_body]
pub(crate) fn as_object(v: &Value) -> (r: Option<&serde_json::Map<String, Value>>)
    ensures
        match json_model(*v) {
            JsonModel::Object(members) => {
                &&& r is Some
                &&& object_members(*r.unwrap()) == members
                &&& object_members(*r.unwrap()).dom().finite()
            },
            _ => r is None,
        },
{
    v.as_object()
}

/// `Value::as_i64`: the integer inside a number that is stored as an integer
/// and fits in an `i64`, `None` for any other value.
#[verifier::external_body]
pub(crate) fn as_i64(v: &Value) -> (r: Option<i64>)
    ensures
        r == match json_model(*v) {
            JsonModel::Number(JsonNumber::Integer(n)) => if i64::MIN <= n <= i64::MAX {
                Some(n as i64)
            } else {
                None
            },
            _ => None,
        },
{
    v.as_i64()
}

/// `Value::as_str`: the characters of a JSON string, `None` for any other
/// value.
#[verifier::external_body]
pub(crate) fn as_str(v: &Value) -> (r: Option<&str>)
    ensures
        match json_model(*v) {
            JsonModel::Text(s) => r is Some && r.unwrap()@ == s,
            _ => r is None,
        },
{
    v.as_str()
}

/// `Map::new`: a map without members.
#[verifier::external_body]
pub(crate) fn new_object() -> (m: serde_json::Map<String, Value>)
    ensures
        object_members(m) == no_members(),
{
    serde_json::Map::new()
}

/// `Map::insert`: afterwards the map holds `value` under `key`, in place of
/// whatever it held under that key, and its other members as before. The
/// value that was replaced, if any, is dropped.
#[verifier::external_body]
pub(crate) fn object_insert(m: &mut serde_json::Map<String, Value>, key: String, value: Value)
    ensures
        object_members(*final(m)) == object_members(*old(m)).insert(key@, json_model(value)),
{
    let _ = m.insert(key, value);
}

/// `Map::len`: the number of members.
#[verifier::external_body]
pub(crate) fn object_len(m: &serde_json::Map<String, Value>) -> (n: usize)
    ensures
        n == object_members(*m).dom().len(),
{
    m.len()
}

/// `Map::get`: the value held under `key`, `None` where the map has no such
/// key.
#[verifier::external_body]
pub(crate) fn object_get<'a>(m: &'a serde_json::Map<String, Value>, key: &str) -> (r: Option<&'a Value>)
    ensures
        r is Some <==> object_members(*m).contains_key(key@),
        r is Some ==> json_model(*r.unwrap()) == object_members(*m)[key@],
{
    m.get(key)
}

/// `serde_json::from_value`: decodes a value into a `T`. The outcome is up
/// to `T`'s own decoder, so nothing is claimed of it.
#[verifier::external_body]
pub(crate) fn from_value<T: serde::de::DeserializeOwned>(v: Value) -> (r: Result<T, serde_json::Error>)
{
    serde_json::from_value(v)
}

/// `serde_json::to_value`: encodes a `T` as a value. The outcome is up to
/// `T`'s own encoder, so nothing is claimed of it.
#[verifier::external_body]
pub(crate) fn to_value<T: serde::Serialize>(payload: T) -> (r: Result<Value, serde_json::Error>)
{
    serde_json::to_value(payload)
}

/// The `Display` text of a `serde_json::Error`. Nothing is claimed of it.
#[verifier::external_body]
pub(crate) fn error_text(e: &serde_json::Error) -> (s: String)
{
    e.to_string()
}

/// `String::push_str`: appends `tail` to the end of `s`.
pub assume_specification[ String::push_str ](s: &mut String, tail: &str)
    ensures
        final(s)@ == old(s)@ + tail@,
;

} // verus!
