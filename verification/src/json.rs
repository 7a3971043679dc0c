//! JSON values as mathematical trees, and the values of `serde_json` that
//! hold them.

use serde_json::Value;
use vstd::prelude::*;

verus! {

/// What a JSON value holds, as a mathematical tree.
pub enum Json {
    Null,
    Bool(bool),
    /// A number, by its text in JSON.
    Number(Seq<char>),
    /// A string, by its characters.
    Text(Seq<char>),
    /// An array, by its items in order.
    Array(Seq<Json>),
    /// An object, by the value under each of its keys.
    Object(Map<Seq<char>, Json>),
}

/// The map of `serde_json` from the keys of a JSON object to its values.
pub type JsonObject = serde_json::Map<String, Value>;

/// `serde_json::Value`, a JSON value, of which nothing is seen here but its
/// tree.
#[verifier::external_type_specification]
#[verifier::external_body]
pub struct ExValue(serde_json::Value);

/// `serde_json::Map`, of which nothing is seen here but its entries.
#[verifier::external_type_specification]
#[verifier::external_body]
#[verifier::reject_recursive_types(K)]
#[verifier::reject_recursive_types(V)]
pub struct ExMap<K, V>(serde_json::Map<K, V>);

/// `serde_json::Error`, the error of the JSON printer, of which nothing is
/// seen here.
#[verifier::external_type_specification]
#[verifier::external_body]
pub struct ExError(serde_json::Error);

/// The tree that a `serde_json::Value` holds.
pub uninterp spec fn value_json(value: Value) -> Json;

/// The entries that a `serde_json::Map` holds.
pub uninterp spec fn object_entries(object: JsonObject) -> Map<Seq<char>, Json>;

/// `serde_json::Map::new` makes a map without entries.
pub assume_specification[ serde_json::Map::<String, Value>::new ]() -> (object: serde_json::Map<
    String,
    Value,
>)
    ensures
        object_entries(object) == (Map::<Seq<char>, Json>::empty()),
;

/// `serde_json::Map::insert` stores the value under the key, in place of any
/// value that the key had, and returns the value that it replaced, if any.
pub assume_specification[ serde_json::Map::<String, Value>::insert ](
    object: &mut serde_json::Map<String, Value>,
    k: String,
    v: Value,
) -> (replaced: Option<Value>)
    ensures
        object_entries(*final(object)) == object_entries(*old(object)).insert(k@, value_json(v)),
        replaced is Some <==> object_entries(*old(object)).dom().contains(k@),
        replaced matches Some(earlier) ==> value_json(earlier) == object_entries(*old(object))[k@],
;

/// Makes the variant `serde_json::Value::String`: a JSON string of this text.
#[verifier::external_body]
pub(crate) fn text_value(text: String) -> (value: Value)
    ensures
        value_json(value) == Json::Text(text@),
{
    Value::String(text)
}

/// Makes the variant `serde_json::Value::Object`: a JSON object of these entries.
#[verifier::external_body]
pub(crate) fn object_value(object: JsonObject) -> (value: Value)
    ensures
        value_json(value) == Json::Object(object_entries(object)),
{
    Value::Object(object)
}

/// What `serde_json::to_string_pretty` gives for a tree: the pretty-printed
/// text, or nothing where the printer reports an error.
pub uninterp spec fn pretty_text(json: Json) -> Option<Seq<char>>;

/// Calls `serde_json::to_string_pretty` on a value. Its outcome is that of
/// the tree that the value holds, the text where the call succeeds and
/// nothing where it reports an error: the printer reads nothing but the
/// value, and it prints the entries of an object in the order of their keys.
#[verifier::external_body]
pub(crate) fn print_pretty(value: &Value) -> (outcome: Result<String, serde_json::Error>)
    ensures
        outcome matches Ok(text) ==> pretty_text(value_json(*value)) == Some(text@),
        outcome is Err ==> pretty_text(value_json(*value)) is None,
{
    serde_json::to_string_pretty(value)
}

} // verus!
