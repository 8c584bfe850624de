//! The JSON objects that the request log reads and rewrites, held in
//! `serde_json`'s own types and reached through the functions below.

use vstd::prelude::*;

verus! {

/// A JSON value of `serde_json`.
#[verifier::external_type_specification]
#[verifier::external_body]
pub struct ExJsonValue(serde_json::Value);

/// The map of `serde_json` that holds the members of a JSON object.
#[verifier::external_type_specification]
#[verifier::external_body]
#[verifier::reject_recursive_types(K)]
#[verifier::reject_recursive_types(V)]
pub struct ExJsonMap<K, V>(serde_json::Map<K, V>);

/// A JSON value, as the request log reads it. A number stands as the text
/// that `serde_json` writes for it; every other kind of value is held in
/// full.
pub enum JsonValue {
    Null,
    Bool(bool),
    Number(Seq<char>),
    String(Seq<char>),
    Array(Seq<JsonValue>),
    Object(Map<Seq<char>, JsonValue>),
}

/// What a JSON object of `serde_json` holds: each member's key, mapped to
/// the member's value.
pub uninterp spec fn json_object_members(
    object: serde_json::Map<String, serde_json::Value>,
) -> Map<Seq<char>, JsonValue>;

/// The compact JSON text that `serde_json` writes for an object with these
/// members. The object's map is a `BTreeMap` (the crate's `preserve_order`
/// feature is off), so its members are written in the order of their keys
/// and the text depends on the members alone.
pub uninterp spec fn json_object_text(members: Map<Seq<char>, JsonValue>) -> Seq<char>;

/// What `serde_json::from_slice` makes of the bytes of `text`: the members of
/// the object where the text is a JSON object, and `None` where it is no
/// JSON at all or JSON of another kind.
pub uninterp spec fn parsed_json_object(text: Seq<char>) -> Option<Map<Seq<char>, JsonValue>>;

/// `serde_json::from_slice::<serde_json::Value>` on the bytes of `text`; the
/// result is kept where it is a JSON object. The contract claims that the
/// parse fails, or yields another kind of value, exactly where
/// `parsed_json_object` is `None`, and that an object's members are those that
/// `parsed_json_object` names.
#[verifier::external_body]
pub(crate) fn parse_json_object(text: &str) -> (r: Option<serde_json::Map<String, serde_json::Value>>)
    ensures
        r is Some <==> parsed_json_object(text@) is Some,
        r matches Some(object) ==> parsed_json_object(text@) == Some(json_object_members(object)),
{
    match serde_json::from_slice::<serde_json::Value>(text.as_bytes()) {
        Ok(serde_json::Value::Object(object)) => Some(object),
        _ => None,
    }
}

/// `serde_json::Map::get`, telling whether the member `key` is present and
/// holds a JSON string. The contract claims exactly that, over
/// `json_object_members`.
#[verifier::external_body]
pub(crate) fn json_member_is_string(
    object: &serde_json::Map<String, serde_json::Value>,
    key: &str,
) -> (r: bool)
    ensures
        r == (json_object_members(*object).contains_key(key@) && json_object_members(
            *object,
        )[key@] is String),
{
    match object.get(key) {
        Some(serde_json::Value::String(_)) => true,
        _ => false,
    }
}

/// `serde_json::Map::insert` of a JSON string. The contract claims that the
/// member `key` then holds the string `value` and that every other member is
/// left as it was.
#[verifier::external_body]
pub(crate) fn json_set_string_member(
    object: &mut serde_json::Map<String, serde_json::Value>,
    key: &str,
    value: &str,
)
    ensures
        json_object_members(*final(object)) == json_object_members(*old(object)).insert(
            key@,
            JsonValue::String(value@),
        ),
{
    object.insert(key.to_string(), serde_json::Value::String(value.to_string()));
}

/// `Display` of `serde_json::Value` on an object: the contract claims that the
/// text is the one that `json_object_text` names for the object's members.
#[verifier::external_body]
pub(crate) fn json_object_to_text(object: serde_json::Map<String, serde_json::Value>) -> (r: String)
    ensures
        r@ == json_object_text(json_object_members(object)),
{
    serde_json::Value::Object(object).to_string()
}

} // verus!
