//! JSON values as `serde_json` holds them, with a mathematical model.
//!
//! Parsing, number conversion and rendering stay with `serde_json`. Verified
//! code reaches them through the small functions below, whose contracts are
//! stated over `Json`, the model of a value, and are taken on trust.

use vstd::prelude::*;

verus! {

/// `serde_json::Value`, a JSON value; nothing of its inside is assumed.
#[verifier::external_type_specification]
#[verifier::external_body]
pub struct ExValue(serde_json::Value);

/// `serde_json::Error`, why a text was refused or a value not rendered.
#[verifier::external_type_specification]
#[verifier::external_body]
pub struct ExJsonError(serde_json::Error);

/// `serde_json::Map`, the members of a JSON object while it is filled.
#[verifier::external_type_specification]
#[verifier::external_body]
#[verifier::reject_recursive_types(K)]
#[verifier::reject_recursive_types(V)]
pub struct ExJsonMap<K, V>(serde_json::Map<K, V>);

/// What a JSON value is. A number is either an integer between `i64::MIN`
/// and `u64::MAX`, or a finite double, given by its IEEE-754 bit pattern.
pub enum Json {
    Null,
    Bool(bool),
    Integer(int),
    Float(u64),
    Text(Seq<char>),
    Array(Seq<Json>),
    Object(Map<Seq<char>, Json>),
}

/// The value that a `serde_json::Value` holds.
pub uninterp spec fn json_model(v: serde_json::Value) -> Json;

/// The members that a `serde_json::Map` holds, by key.
pub uninterp spec fn json_members(m: serde_json::Map<String, serde_json::Value>) -> Map<
    Seq<char>,
    Json,
>;

/// The message that a `serde_json::Error` displays.
pub uninterp spec fn json_error_detail(e: serde_json::Error) -> Seq<char>;

/// What `serde_json::from_str` makes of a text: the value it denotes, or the
/// message of the error that it is refused with.
pub uninterp spec fn json_parse(text: Seq<char>) -> Result<Json, Seq<char>>;

/// What `serde_json::to_string` makes of a value: the compact text that it
/// renders the value as, or the message of the error that it gives up with.
pub uninterp spec fn json_render(j: Json) -> Result<Seq<char>, Seq<char>>;

/// The bit pattern of the double that an integer converts to.
pub uninterp spec fn float_of_integer(i: int) -> u64;

/// The member of an object under `key`; no other value has members.
pub open spec fn member_of(j: Json, key: Seq<char>) -> Option<Json> {
    match j {
        Json::Object(m) => if m.contains_key(key) {
            Some(m[key])
        } else {
            None
        },
        _ => None,
    }
}

/// The text of a string value; no other value has one.
pub open spec fn text_of(j: Json) -> Option<Seq<char>> {
    match j {
        Json::Text(s) => Some(s),
        _ => None,
    }
}

/// The integer of a number value that is an integer within `i64`.
pub open spec fn integer_of(j: Json) -> Option<i64> {
    match j {
        Json::Integer(i) => if i64::MIN <= i <= i64::MAX {
            Some(i as i64)
        } else {
            None
        },
        _ => None,
    }
}

/// The items of an array value; no other value has items.
pub open spec fn items_of(j: Json) -> Option<Seq<Json>> {
    match j {
        Json::Array(items) => Some(items),
        _ => None,
    }
}

/// A number value as a double; no other value converts.
pub open spec fn float_of(j: Json) -> Option<Json> {
    match j {
        Json::Integer(i) => Some(Json::Float(float_of_integer(i))),
        Json::Float(bits) => Some(Json::Float(bits)),
        _ => None,
    }
}

/// The models of the values in `items`, in order.
pub open spec fn models(items: Seq<serde_json::Value>) -> Seq<Json> {
    Seq::new(items.len(), |i: int| json_model(items[i]))
}

/// Calls `serde_json::from_str` for a `Value`. Its outcome depends on the
/// text alone: `json_parse` names it.
#[verifier::external_body]
pub(crate) fn parse_json(text: &str) -> (r: Result<serde_json::Value, serde_json::Error>)
    ensures
        match r {
            Ok(v) => json_parse(text@) == Ok::<Json, Seq<char>>(json_model(v)),
            Err(e) => json_parse(text@) == Err::<Json, Seq<char>>(json_error_detail(e)),
        },
{
    serde_json::from_str::<serde_json::Value>(text)
}

/// Calls `to_string` on a `serde_json::Error`: the message it displays.
#[verifier::external_body]
pub(crate) fn error_detail(e: &serde_json::Error) -> (r: String)
    ensures
        r@ == json_error_detail(*e),
{
    e.to_string()
}

/// Calls `Value::get` with a string key: the member of an object under that
/// key, and `None` for a missing key or a value that is no object.
#[verifier::external_body]
pub(crate) fn member<'a>(v: &'a serde_json::Value, key: &str) -> (r: Option<&'a serde_json::Value>)
    ensures
        match r {
            Some(x) => member_of(json_model(*v), key@) == Some(json_model(*x)),
            None => member_of(json_model(*v), key@) is None,
        },
{
    v.get(key)
}

/// Calls `Value::as_str`: the text of a string value, `None` for any other.
#[verifier::external_body]
pub(crate) fn as_text<'a>(v: &'a serde_json::Value) -> (r: Option<&'a str>)
    ensures
        match r {
            Some(s) => text_of(json_model(*v)) == Some(s@),
            None => text_of(json_model(*v)) is None,
        },
{
    v.as_str()
}

/// Calls `Value::as_i64`: the integer of a number that is an integer within
/// `i64`, `None` for any other value.
#[verifier::external_body]
pub(crate) fn as_integer(v: &serde_json::Value) -> (r: Option<i64>)
    ensures
        r == integer_of(json_model(*v)),
{
    v.as_i64()
}

/// Calls `Value::as_array`: the items of an array, `None` for any other
/// value.
#[verifier::external_body]
pub(crate) fn as_items<'a>(v: &'a serde_json::Value) -> (r: Option<&'a Vec<serde_json::Value>>)
    ensures
        match r {
            Some(items) => items_of(json_model(*v)) == Some(models(items@)),
            None => items_of(json_model(*v)) is None,
        },
{
    v.as_array()
}

/// Calls `Value::as_f64` and hands the double back as a value: a number
/// converts to the double nearest to it, any other value gives `None`.
#[verifier::external_body]
pub(crate) fn as_float_value(v: &serde_json::Value) -> (r: Option<serde_json::Value>)
    ensures
        match json_model(*v) {
            Json::Integer(i) => r matches Some(x) && json_model(x) == Json::Float(
                float_of_integer(i),
            ),
            Json::Float(bits) => r matches Some(x) && json_model(x) == Json::Float(bits),
            _ => r is None,
        },
{
    v.as_f64().map(serde_json::Value::from)
}

/// Calls `Value::from` on a string slice: the string value of that text.
#[verifier::external_body]
pub(crate) fn text_value(s: &str) -> (r: serde_json::Value)
    ensures
        json_model(r) == Json::Text(s@),
{
    serde_json::Value::from(s)
}

/// Calls `Value::from` on an `i64`: the number value of that integer.
#[verifier::external_body]
pub(crate) fn integer_value(n: i64) -> (r: serde_json::Value)
    ensures
        json_model(r) == Json::Integer(n as int),
{
    serde_json::Value::from(n)
}

/// Makes a `Value::Array` of the given items, in their order.
#[verifier::external_body]
pub(crate) fn array_value(items: Vec<serde_json::Value>) -> (r: serde_json::Value)
    ensures
        json_model(r) == Json::Array(models(items@)),
{
    serde_json::Value::Array(items)
}

/// Calls `Map::new`: a map without members.
#[verifier::external_body]
pub(crate) fn new_object() -> (r: serde_json::Map<String, serde_json::Value>)
    ensures
        json_members(r) == (Map::<Seq<char>, Json>::empty()),
{
    serde_json::Map::new()
}

/// Calls `Map::insert`: afterwards the map holds `value` under `key`, in
/// place of what it held there, and its other members as before.
#[verifier::external_body]
pub(crate) fn object_insert(
    m: &mut serde_json::Map<String, serde_json::Value>,
    key: &str,
    value: serde_json::Value,
)
    ensures
        json_members(*final(m)) == json_members(*old(m)).insert(key@, json_model(value)),
{
    m.insert(key.to_string(), value);
}

/// Makes a `Value::Object` of the given map.
#[verifier::external_body]
pub(crate) fn object_value(m: serde_json::Map<String, serde_json::Value>) -> (r: serde_json::Value)
    ensures
        json_model(r) == Json::Object(json_members(m)),
{
    serde_json::Value::Object(m)
}

/// Calls `serde_json::to_string` on a `Value`. Its outcome depends on the
/// value alone: `json_render` names it.
#[verifier::external_body]
pub(crate) fn render_json(v: &serde_json::Value) -> (r: Result<String, serde_json::Error>)
    ensures
        match r {
            Ok(s) => json_render(json_model(*v)) == Ok::<Seq<char>, Seq<char>>(s@),
            Err(e) => json_render(json_model(*v)) == Err::<Seq<char>, Seq<char>>(
                json_error_detail(e),
            ),
        },
{
    serde_json::to_string(v)
}

} // verus!
