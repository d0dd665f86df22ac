//! What the store relies on from serde_json: its value and map types, parsing,
//! serialising, and the few object operations the store performs.
use vstd::prelude::*;

verus! {

#[verifier::external_type_specification]
#[verifier::external_body]
pub struct ExJsonValue(serde_json::Value);

#[verifier::external_type_specification]
#[verifier::external_body]
#[verifier::reject_recursive_types(K)]
#[verifier::reject_recursive_types(V)]
pub struct ExJsonMap<K, V>(serde_json::Map<K, V>);

#[verifier::external_type_specification]
#[verifier::external_body]
pub struct ExJsonError(serde_json::Error);

/// A value stored under a key of an object: a string, or any other JSON value
/// given by the compact text that serde_json writes for it.
pub enum JsonItem {
    Str(Seq<char>),
    Other(Seq<char>),
}

/// A whole JSON value: an object, by its entries, or any other value given by
/// the compact text that serde_json writes for it. Two values with the same
/// view are the same JSON value.
pub enum JsonDoc {
    Object(Map<Seq<char>, JsonItem>),
    Other(Seq<char>),
}

/// The view of a JSON value, as `JsonDoc` describes it.
pub uninterp spec fn json_view(v: serde_json::Value) -> JsonDoc;

/// The entries of a JSON object map, each value viewed as in `JsonItem`.
pub uninterp spec fn map_view(m: serde_json::Map<String, serde_json::Value>) -> Map<Seq<char>, JsonItem>;

/// The view of the value that JSON text parses to, or `None` where parsing fails.
pub uninterp spec fn parsed_view(s: Seq<char>) -> Option<JsonDoc>;

/// The compact JSON text that serde_json writes for a value.
pub uninterp spec fn json_text(v: serde_json::Value) -> Seq<char>;

/// How deeply arrays and objects nest in a value: 0 for any other value, and
/// one more than the deepest element for an array or an object.
pub uninterp spec fn json_depth(v: serde_json::Value) -> nat;

/// Relies on serde_json::Value::is_object: true exactly for an object.
pub assume_specification[ serde_json::Value::is_object ](v: &serde_json::Value) -> (r: bool)
    ensures
        r == json_view(*v) is Object,
;

/// Relies on the derived Clone of serde_json::Value: a deep, equal copy.
pub assume_specification[ <serde_json::Value as Clone>::clone ](v: &serde_json::Value) -> (r: serde_json::Value)
    ensures
        r == *v,
;

/// Relies on serde_json::from_str: the value of valid JSON text, nested less
/// than its recursion limit of 128 levels; `{}` is an object without entries.
#[verifier::external_body]
pub(crate) fn parse_json(text: &str) -> (r: Result<serde_json::Value, serde_json::Error>)
    ensures
        r is Ok <==> parsed_view(text@) is Some,
        r is Ok ==> parsed_view(text@) == Some(json_view(r->Ok_0)),
        r is Ok ==> json_depth(r->Ok_0) < 128,
        text@ == "{}"@ ==> r is Ok && json_view(r->Ok_0) == JsonDoc::Object(Map::empty()),
{
    serde_json::from_str(text)
}

/// Relies on serde_json::to_string, which cannot fail on a Value: the text it
/// writes parses back to the same value wherever the nesting stays under the
/// parser's recursion limit (floats read back exactly with `float_roundtrip`).
#[verifier::external_body]
pub(crate) fn json_to_text(v: &serde_json::Value) -> (r: Result<String, serde_json::Error>)
    ensures
        r is Ok,
        r is Ok ==> r->Ok_0@ == json_text(*v),
        r is Ok && json_depth(*v) < 128 ==> parsed_view(r->Ok_0@) == Some(json_view(*v)),
{
    serde_json::to_string(v)
}

/// Relies on serde_json::Value::get with a string key: the value under the
/// key of an object, `None` for a missing key or a value that is no object;
/// only a string value is handed on.
#[verifier::external_body]
pub(crate) fn string_entry(v: &serde_json::Value, key: &str) -> (r: Option<String>)
    ensures
        match json_view(*v) {
            JsonDoc::Object(m) => match r {
                Some(s) => m.contains_key(key@) && m[key@] == JsonItem::Str(s@),
                None => !m.contains_key(key@) || m[key@] is Other,
            },
            JsonDoc::Other(_) => r is None,
        },
{
    match v.get(key) {
        Some(serde_json::Value::String(s)) => Some(s.clone()),
        _ => None,
    }
}

/// Relies on serde_json::Map::insert: sets `key` to the string `value` in an
/// object, keeping every other entry; a string entry nests no deeper.
#[verifier::external_body]
pub(crate) fn set_string_entry(obj: &mut serde_json::Value, key: String, value: String)
    requires
        json_view(*old(obj)) is Object,
    ensures
        json_view(*final(obj)) == JsonDoc::Object(json_view(*old(obj))->Object_0.insert(key@, JsonItem::Str(value@))),
        json_depth(*final(obj)) <= json_depth(*old(obj)),
{
    if let serde_json::Value::Object(m) = obj {
        m.insert(key, serde_json::Value::String(value));
    }
}

/// Relies on serde_json::Value::as_object: the map of an object, `None` for
/// any other value.
#[verifier::external_body]
pub(crate) fn object_map(v: &serde_json::Value) -> (r: Option<serde_json::Map<String, serde_json::Value>>)
    ensures
        r is Some <==> json_view(*v) is Object,
        r is Some ==> json_view(*v) == JsonDoc::Object(map_view(r->Some_0)),
{
    v.as_object().cloned()
}

} // verus!
