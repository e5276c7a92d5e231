//! The JSON values that reports are made of.
//!
//! Values and objects are those of `serde_json`. Contracts speak of what they hold:
//! a value holds a [`JsonTree`], an object holds a map from keys to such trees.
use vstd::prelude::*;

verus! {

/// What a JSON value holds.
pub enum JsonTree {
    Null,
    Bool(bool),
    /// An integer.
    Number(int),
    /// A number that is not held as an integer, by the text it is printed as.
    Decimal(Seq<char>),
    String(Seq<char>),
    Array(Seq<JsonTree>),
    Object(Map<Seq<char>, JsonTree>),
}

/// `serde_json::Value`, seen only through [`json_tree`].
#[verifier::external_type_specification]
#[verifier::external_body]
pub struct ExValue(serde_json::Value);

/// `serde_json::Map`, seen only through [`json_entries`].
#[verifier::external_type_specification]
#[verifier::external_body]
#[verifier::reject_recursive_types(K)]
#[verifier::reject_recursive_types(V)]
pub struct ExJsonMap<K, V>(serde_json::Map<K, V>);

/// What a `serde_json::Value` holds.
pub uninterp spec fn json_tree(value: serde_json::Value) -> JsonTree;

/// The entries of a `serde_json::Map`.
pub uninterp spec fn json_entries(
    object: serde_json::Map<String, serde_json::Value>,
) -> Map<Seq<char>, JsonTree>;

/// The entries of an object that holds nothing.
pub open spec fn no_entries() -> Map<Seq<char>, JsonTree> {
    Map::empty()
}

/// What each value of a list holds, in order.
pub open spec fn json_trees(values: Seq<serde_json::Value>) -> Seq<JsonTree> {
    Seq::new(values.len(), |i: int| json_tree(values[i]))
}

/// Calls `serde_json::Map::new`, which makes an object without entries.
#[verifier::external_body]
pub(crate) fn json_map_new() -> (object: serde_json::Map<String, serde_json::Value>)
    ensures
        json_entries(object) == no_entries(),
{
    serde_json::Map::new()
}

/// Calls `serde_json::Map::insert`: the key then holds the given value, whether or not
/// it was present before, and every other entry stays as it was.
#[verifier::external_body]
pub(crate) fn json_map_insert(
    object: &mut serde_json::Map<String, serde_json::Value>,
    key: &str,
    value: serde_json::Value,
)
    ensures
        json_entries(*final(object)) == json_entries(*old(object)).insert(key@, json_tree(value)),
{
    object.insert(key.to_owned(), value);
}

/// Calls `serde_json::Value::from` on an unsigned integer, which gives that number.
#[verifier::external_body]
pub(crate) fn json_number(number: u64) -> (value: serde_json::Value)
    ensures
        json_tree(value) == JsonTree::Number(number as int),
{
    serde_json::Value::from(number)
}

/// Calls `serde_json::Value::from` on a flag, which gives that flag.
#[verifier::external_body]
pub(crate) fn json_bool(flag: bool) -> (value: serde_json::Value)
    ensures
        json_tree(value) == JsonTree::Bool(flag),
{
    serde_json::Value::from(flag)
}

/// Calls `serde_json::Value::from` on a string slice, which gives that text.
#[verifier::external_body]
pub(crate) fn json_string(text: &str) -> (value: serde_json::Value)
    ensures
        json_tree(value) == JsonTree::String(text@),
{
    serde_json::Value::from(text)
}

/// Calls `serde_json::Value::from` on `()`, which gives the null value.
#[verifier::external_body]
pub(crate) fn json_null() -> (value: serde_json::Value)
    ensures
        json_tree(value) == JsonTree::Null,
{
    serde_json::Value::from(())
}

/// Calls `serde_json::Value::from` on a list of values, which gives an array that holds
/// what they hold, in the same order.
#[verifier::external_body]
pub(crate) fn json_array(values: Vec<serde_json::Value>) -> (value: serde_json::Value)
    ensures
        json_tree(value) == JsonTree::Array(json_trees(values@)),
{
    serde_json::Value::from(values)
}

/// Calls `serde_json::Value::from` on a map, which gives an object with the same entries.
#[verifier::external_body]
pub(crate) fn json_object(
    object: serde_json::Map<String, serde_json::Value>,
) -> (value: serde_json::Value)
    ensures
        json_tree(value) == JsonTree::Object(json_entries(object)),
{
    serde_json::Value::from(object)
}

} // verus!
