//! A JSON object of texts, built and written out by `serde_json`.
//!
//! The object is held in a private field, so that every value of
//! `TextObject` was made here, by `new_object` and `insert_text`, and holds
//! texts only. The four functions of this file are trusted: their contracts
//! say what the `serde_json` calls do, and nothing here proves them.

use vstd::prelude::*;

verus! {

/// Trusted: the object type of `serde_json`, opaque here.
#[verifier::external_type_specification]
#[verifier::external_body]
#[verifier::reject_recursive_types(K)]
#[verifier::reject_recursive_types(V)]
pub struct ExJsonMap<K, V>(serde_json::Map<K, V>);

/// Trusted: the value type of `serde_json`, opaque here.
#[verifier::external_type_specification]
#[verifier::external_body]
pub struct ExJsonValue(serde_json::Value);

/// Trusted: the error type of `serde_json`, opaque here.
#[verifier::external_type_specification]
#[verifier::external_body]
pub struct ExJsonError(serde_json::Error);

/// A JSON object whose values all are texts.
pub struct TextObject {
    map: serde_json::Map<String, serde_json::Value>,
}

/// What an object holds: its keys, and for each key the text that is its
/// value.
pub uninterp spec fn json_entries(object: TextObject) -> Map<Seq<char>, Seq<char>>;

/// The entries of an object that holds nothing.
pub open spec fn no_entries() -> Map<Seq<char>, Seq<char>> {
    Map::empty()
}

/// The JSON text that `serde_json::to_string` writes for an object with
/// these keys and text values: the keys in their order as strings, each
/// with its value, nothing between the tokens.
pub uninterp spec fn json_text(entries: Map<Seq<char>, Seq<char>>) -> Seq<char>;

/// Trusted: `serde_json::Map::new` makes an object without entries.
#[verifier::external_body]
pub(crate) fn new_object() -> (object: TextObject)
    ensures
        json_entries(object) == no_entries(),
{
    TextObject { map: serde_json::Map::new() }
}

/// Trusted: `serde_json::Map::insert`, handed a text as
/// `serde_json::Value::String`, sets the value of `key` to that text,
/// whether the key was there or not, and leaves the other entries alone.
#[verifier::external_body]
pub(crate) fn insert_text(object: &mut TextObject, key: String, value: String)
    ensures
        json_entries(*final(object)) == json_entries(*old(object)).insert(key@, value@),
{
    object.map.insert(key, serde_json::Value::String(value));
}

/// Trusted: `serde_json::Map::is_empty` tells whether the object has no
/// entry.
#[verifier::external_body]
pub(crate) fn object_is_empty(object: &TextObject) -> (empty: bool)
    ensures
        empty == (json_entries(*object) == no_entries()),
{
    object.map.is_empty()
}

/// Trusted: on an object of texts `serde_json::to_string` succeeds, and
/// its result is the JSON text of the object's entries. It can fail only
/// where the writer fails or a key is no string: here it writes into a
/// vector of bytes, and every key is a `String`.
#[verifier::external_body]
pub(crate) fn object_text(object: &TextObject) -> (text: Result<String, serde_json::Error>)
    ensures
        text is Ok,
        text matches Ok(t) ==> t@ == json_text(json_entries(*object)),
{
    serde_json::to_string(&object.map)
}

} // verus!
