//! Structured payloads: JSON objects as serde_json holds them, and the calls
//! into serde_json that the relay makes on them.
use vstd::prelude::*;

verus! {

#[verifier::external_type_specification]
#[verifier::external_body]
pub struct ExJsonValue(serde_json::Value);

#[verifier::external_type_specification]
#[verifier::external_body]
#[verifier::reject_recursive_types(K)]
#[verifier::reject_recursive_types(V)]
pub struct ExJsonMap<K, V>(serde_json::Map<K, V>);

/// A payload: a JSON object, field name to value.
pub type JsonObject = serde_json::Map<String, serde_json::Value>;

/// The fields of an object, by name.
pub uninterp spec fn object_fields(m: serde_json::Map<String, serde_json::Value>) -> Map<Seq<char>, serde_json::Value>;

/// The fields of the object that a text encodes, or `None` where the text is
/// not JSON or encodes something other than an object.
pub uninterp spec fn parsed_object(text: Seq<char>) -> Option<Map<Seq<char>, serde_json::Value>>;

/// The JSON text of an object with these fields.
pub uninterp spec fn object_text(fields: Map<Seq<char>, serde_json::Value>) -> Seq<char>;

/// The JSON string value holding `s`.
pub uninterp spec fn json_string(s: Seq<char>) -> serde_json::Value;

/// The text that a JSON value holds, where it is a string.
pub uninterp spec fn string_of(v: serde_json::Value) -> Option<Seq<char>>;

/// Relies on serde_json::from_str: it decodes `text` as a JSON value, of which
/// an object is kept.
#[verifier::external_body]
pub(crate) fn parse_object(text: &str) -> (r: Option<JsonObject>)
    ensures
        match r {
            Some(m) => parsed_object(text@) == Some(object_fields(m)),
            None => parsed_object(text@) is None,
        },
{
    match serde_json::from_str::<serde_json::Value>(text) {
        Ok(serde_json::Value::Object(m)) => Some(m),
        _ => None,
    }
}

/// Relies on serde_json::to_string: it writes an object as JSON text. On a
/// map of string keys to values it does not fail: every kind of value is
/// written, a float that is not finite as `null`, into a growing buffer.
#[verifier::external_body]
pub(crate) fn write_object(m: &JsonObject) -> (r: String)
    ensures
        r@ == object_text(object_fields(*m)),
{
    serde_json::to_string(m).expect("a JSON object is always written")
}

/// Relies on serde_json::Map::get: the value of the field named `key`, if any.
#[verifier::external_body]
pub(crate) fn get_field<'a>(m: &'a JsonObject, key: &str) -> (r: Option<&'a serde_json::Value>)
    ensures
        match r {
            Some(v) => object_fields(*m).contains_key(key@) && *v == object_fields(*m)[key@],
            None => !object_fields(*m).contains_key(key@),
        },
{
    m.get(key)
}

/// Relies on serde_json::Map::insert: the field named `key` is set to `v`,
/// added or overwritten, and the other fields stay as they were.
#[verifier::external_body]
pub(crate) fn insert_field(m: &mut JsonObject, key: String, v: serde_json::Value)
    ensures
        object_fields(*final(m)) == object_fields(*old(m)).insert(key@, v),
{
    m.insert(key, v);
}

/// Relies on serde_json::Value::as_str: the text of a string value.
#[verifier::external_body]
pub(crate) fn string_in(v: &serde_json::Value) -> (r: Option<String>)
    ensures
        match r {
            Some(s) => string_of(*v) == Some(s@),
            None => string_of(*v) is None,
        },
{
    v.as_str().map(|s| s.to_string())
}

/// Relies on serde_json::Value::String: a string value, which `as_str` reads
/// back.
#[verifier::external_body]
pub(crate) fn string_value(s: String) -> (r: serde_json::Value)
    ensures
        r == json_string(s@),
        string_of(r) == Some(s@),
{
    serde_json::Value::String(s)
}

} // verus!
