use vstd::prelude::*;

use crate::error::ErrorCode;
use crate::json::{
    json_depth, json_text, json_to_text, json_view, map_view, object_map, parse_json,
    parsed_view, set_string_entry, string_entry, JsonDoc, JsonItem,
};

verus! {

/// The view of what reading the config file gave: its text, or the error
/// with which opening or reading it failed.
pub open spec fn raw_view(raw: Result<String, ErrorCode>) -> Result<Seq<char>, ErrorCode> {
    match raw {
        Ok(s) => Ok(s@),
        Err(e) => Err(e),
    }
}

/// The config value as read: upstream errors pass unchanged, text that is
/// not JSON is `InvalidJsonFormat`.
pub open spec fn config_doc(raw: Result<Seq<char>, ErrorCode>) -> Result<JsonDoc, ErrorCode> {
    match raw {
        Err(e) => Err(e),
        Ok(t) => match parsed_view(t) {
            Some(d) => Ok(d),
            None => Err(ErrorCode::InvalidJsonFormat),
        },
    }
}

/// The string stored under `key`: `JsonPropertyNotFound` where the key is
/// absent, its value is not a string, or the value is no object.
pub open spec fn entry_string(d: JsonDoc, key: Seq<char>) -> Result<Seq<char>, ErrorCode> {
    match d {
        JsonDoc::Object(m) => if m.contains_key(key) && m[key] is Str {
            Ok(m[key]->Str_0)
        } else {
            Err(ErrorCode::JsonPropertyNotFound)
        },
        JsonDoc::Other(_) => Err(ErrorCode::JsonPropertyNotFound),
    }
}

/// The property `key` of the config as read.
pub open spec fn config_property(raw: Result<Seq<char>, ErrorCode>, key: Seq<char>) -> Result<Seq<char>, ErrorCode> {
    match config_doc(raw) {
        Err(e) => Err(e),
        Ok(d) => entry_string(d, key),
    }
}

/// All entries of the config as read; a value that is no object is `InvalidJsonFormat`.
pub open spec fn config_listing(raw: Result<Seq<char>, ErrorCode>) -> Result<Map<Seq<char>, JsonItem>, ErrorCode> {
    match config_doc(raw) {
        Err(e) => Err(e),
        Ok(JsonDoc::Object(m)) => Ok(m),
        Ok(JsonDoc::Other(_)) => Err(ErrorCode::InvalidJsonFormat),
    }
}

/// The value after setting `key` to the string `value`; a value that is no
/// object is left as it is.
pub open spec fn merged_doc(d: JsonDoc, key: Seq<char>, value: Seq<char>) -> JsonDoc {
    match d {
        JsonDoc::Object(m) => JsonDoc::Object(m.insert(key, JsonItem::Str(value))),
        JsonDoc::Other(t) => JsonDoc::Other(t),
    }
}

/// Reading, merging into and writing the JSON config object.
pub struct FileUtil {}

impl FileUtil {
    /// Parses what reading the config file gave into its JSON value, as it is.
    pub fn read_config_json(raw: Result<String, ErrorCode>) -> (r: Result<serde_json::Value, ErrorCode>)
        ensures
            match r {
                Ok(v) => config_doc(raw_view(raw)) == Ok::<JsonDoc, ErrorCode>(json_view(v))
                    && json_depth(v) < 128,
                Err(e) => config_doc(raw_view(raw)) == Err::<JsonDoc, ErrorCode>(e),
            },
    {
        match raw {
            Err(e) => Err(e),
            Ok(text) => match parse_json(text.as_str()) {
                Ok(v) => Ok(v),
                Err(_) => Err(ErrorCode::InvalidJsonFormat),
            },
        }
    }

    /// Fetches the string property `name` of the config.
    pub fn read_config_json_property(raw: Result<String, ErrorCode>, name: &str) -> (r: Result<String, ErrorCode>)
        ensures
            match r {
                Ok(s) => config_property(raw_view(raw), name@) == Ok::<Seq<char>, ErrorCode>(s@),
                Err(e) => config_property(raw_view(raw), name@) == Err::<Seq<char>, ErrorCode>(e),
            },
    {
        match FileUtil::read_config_json(raw) {
            Err(e) => Err(e),
            Ok(json) => match string_entry(&json, name) {
                Some(s) => Ok(s),
                None => Err(ErrorCode::JsonPropertyNotFound),
            },
        }
    }

    /// Fetches the map of all properties of the config.
    pub fn list_all_config_json_properties(raw: Result<String, ErrorCode>) -> (r: Result<
        serde_json::Map<String, serde_json::Value>,
        ErrorCode,
    >)
        ensures
            match r {
                Ok(m) => config_listing(raw_view(raw)) == Ok::<Map<Seq<char>, JsonItem>, ErrorCode>(map_view(m)),
                Err(e) => config_listing(raw_view(raw)) == Err::<Map<Seq<char>, JsonItem>, ErrorCode>(e),
            },
    {
        match FileUtil::read_config_json(raw) {
            Err(e) => Err(e),
            Ok(json) => match object_map(&json) {
                Some(m) => Ok(m),
                None => Err(ErrorCode::InvalidJsonFormat),
            },
        }
    }

    /// Returns `v` with `key` set to the string `value` where `v` is an
    /// object, and `v` unchanged otherwise.
    pub fn merge(v: &serde_json::Value, key: String, value: String) -> (r: serde_json::Value)
        ensures
            json_view(r) == merged_doc(json_view(*v), key@, value@),
            json_depth(r) <= json_depth(*v),
            !(json_view(*v) is Object) ==> r == *v,
    {
        if v.is_object() {
            let mut m = v.clone();
            set_string_entry(&mut m, key, value);
            m
        } else {
            v.clone()
        }
    }

    /// Renders the text that overwrites the config file with `new_json`; it
    /// reads back as `new_json` wherever that nests within the parser's limit.
    pub fn overwrite_json_file(new_json: &serde_json::Value) -> (r: String)
        ensures
            r@ == json_text(*new_json),
            json_depth(*new_json) < 128 ==> parsed_view(r@) == Some(json_view(*new_json)),
    {
        json_to_text(new_json).unwrap()
    }
}

/// Writing the result of merging `key → value` into an object and reading the
/// config back yields `value` under `key`, and every other entry as it was.
pub proof fn lemma_merge_write_read(
    v: serde_json::Value,
    merged: serde_json::Value,
    text: Seq<char>,
    key: Seq<char>,
    value: Seq<char>,
)
    requires
        json_view(v) is Object,
        json_view(merged) == merged_doc(json_view(v), key, value),
        parsed_view(text) == Some(json_view(merged)),
    ensures
        config_property(Ok(text), key) == Ok::<Seq<char>, ErrorCode>(value),
        config_listing(Ok(text)) == Ok::<Map<Seq<char>, JsonItem>, ErrorCode>(
            json_view(v)->Object_0.insert(key, JsonItem::Str(value)),
        ),
{
}

/// A later merge of a key overrides an earlier one.
pub proof fn lemma_merge_overrides(d: JsonDoc, key: Seq<char>, first: Seq<char>, second: Seq<char>)
    ensures
        merged_doc(merged_doc(d, key, first), key, second) == merged_doc(d, key, second),
{
    if let JsonDoc::Object(m) = d {
        assert(m.insert(key, JsonItem::Str(first)).insert(key, JsonItem::Str(second))
            =~= m.insert(key, JsonItem::Str(second)));
    }
}

/// Merges of different keys give the same value in either order.
pub proof fn lemma_merge_commutes(d: JsonDoc, k1: Seq<char>, v1: Seq<char>, k2: Seq<char>, v2: Seq<char>)
    requires
        k1 != k2,
    ensures
        merged_doc(merged_doc(d, k1, v1), k2, v2) == merged_doc(merged_doc(d, k2, v2), k1, v1),
{
    if let JsonDoc::Object(m) = d {
        assert(m.insert(k1, JsonItem::Str(v1)).insert(k2, JsonItem::Str(v2))
            =~= m.insert(k2, JsonItem::Str(v2)).insert(k1, JsonItem::Str(v1)));
    }
}

/// Merging the same pair again changes nothing.
pub proof fn lemma_merge_idempotent(d: JsonDoc, key: Seq<char>, value: Seq<char>)
    ensures
        merged_doc(merged_doc(d, key, value), key, value) == merged_doc(d, key, value),
{
    lemma_merge_overrides(d, key, value, value);
}

/// Property lookup fails with `JsonPropertyNotFound` for a key that the
/// config object lacks, with `InvalidJsonFormat` for text that is not JSON,
/// and with `FileDoesNotExist` where the file could not be opened.
pub proof fn lemma_property_errors(text: Seq<char>, key: Seq<char>)
    ensures
        parsed_view(text) is Some && parsed_view(text)->Some_0 is Object
            && !parsed_view(text)->Some_0->Object_0.contains_key(key)
            ==> config_property(Ok(text), key) == Err::<Seq<char>, ErrorCode>(ErrorCode::JsonPropertyNotFound),
        parsed_view(text) is None
            ==> config_property(Ok(text), key) == Err::<Seq<char>, ErrorCode>(ErrorCode::InvalidJsonFormat),
        config_property(Err(ErrorCode::FileDoesNotExist), key) == Err::<Seq<char>, ErrorCode>(ErrorCode::FileDoesNotExist),
{
}

} // verus!
