//! JSON values as the wire codec sees them.
//!
//! Text is turned into values, and values into text, by `serde_json`. This
//! module gives those values a mathematical model, [`JsonTree`], and states
//! over that model what each `serde_json` call used by the codec returns.
//! Nothing in this module is proved: every function here is a statement
//! about `serde_json` that the rest of the crate relies on.
//!
//! The statements are made of `serde_json` with its default features, where
//! an object is a map sorted by key: what an object holds is then settled by
//! its members alone, whatever the order in which they were put in.
use vstd::prelude::*;
use serde_json::Value;

verus! {

/// A JSON number, told apart the way `serde_json` stores it.
pub enum JsonNumber {
    /// An integer in `0 ..= u64::MAX`.
    Unsigned(u64),
    /// An integer below zero.
    Negative(i64),
    /// Any other number, identified by the bits of its 64-bit representation.
    Real(u64),
}

/// The model of a JSON value.
pub enum JsonTree {
    Null,
    Bool(bool),
    Number(JsonNumber),
    Text(Seq<char>),
    List(Seq<JsonTree>),
    Record(Map<Seq<char>, JsonTree>),
}

/// The members of a JSON object, by key.
pub type Fields = Map<Seq<char>, JsonTree>;

/// `serde_json::Value`, of which the crate knows only what [`tree_of`] says.
#[verifier::external_type_specification]
#[verifier::external_body]
pub struct ExValue(serde_json::Value);

/// `serde_json::Map`, of which the crate knows only what [`entries_of`] says.
#[verifier::external_type_specification]
#[verifier::external_body]
#[verifier::reject_recursive_types(K)]
#[verifier::reject_recursive_types(V)]
pub struct ExObject<K, V>(serde_json::Map<K, V>);

/// `serde_json::Error`, which is only ever mapped to an error of this crate.
#[verifier::external_type_specification]
#[verifier::external_body]
pub struct ExJsonError(serde_json::Error);

/// The tree that a `serde_json::Value` holds.
pub uninterp spec fn tree_of(value: Value) -> JsonTree;

/// The members that a `serde_json::Map` holds, by key.
pub uninterp spec fn entries_of(object: serde_json::Map<String, Value>) -> Fields;

/// What `serde_json::from_str` makes of a text: the tree of the value it
/// returns, or `None` where it reports an error.
pub uninterp spec fn parsed(text: Seq<char>) -> Option<JsonTree>;

/// The text that `serde_json::to_string` writes for a value with this tree.
pub uninterp spec fn rendered(tree: JsonTree) -> Seq<char>;

/// The trees of a sequence of values, in order.
pub open spec fn trees_of(values: Seq<Value>) -> Seq<JsonTree> {
    Seq::new(values.len(), |i: int| tree_of(values[i]))
}

/// Calls `serde_json::from_str` at type `Value`. The outcome depends on the
/// text alone; [`parsed`] names it.
#[verifier::external_body]
pub(crate) fn parse_text(text: &str) -> (r: Result<Value, serde_json::Error>)
    ensures
        match r {
            Ok(v) => parsed(text@) == Some(tree_of(v)),
            Err(_) => parsed(text@) is None,
        },
{
    serde_json::from_str::<Value>(text)
}

/// Calls `serde_json::to_string` on a `Value`. The call succeeds: it writes
/// into a vector, which takes every write, and a `Value` hands the
/// serializer nothing that it refuses, its keys being strings. The text
/// depends on the value's tree alone; [`rendered`] names it.
#[verifier::external_body]
pub(crate) fn render_text(value: &Value) -> (r: Result<String, serde_json::Error>)
    ensures
        r is Ok,
        r matches Ok(s) ==> s@ == rendered(tree_of(*value)),
{
    serde_json::to_string(value)
}

/// Calls `Value::as_object`: the map of an object, `None` for any other value.
#[verifier::external_body]
pub(crate) fn as_object<'a>(value: &'a Value) -> (r: Option<
    &'a serde_json::Map<String, Value>,
>)
    ensures
        match r {
            Some(m) => tree_of(*value) == JsonTree::Record(entries_of(*m)),
            None => !(tree_of(*value) is Record),
        },
{
    value.as_object()
}

/// Calls `Map::get` with a string key: the member under that key, `None`
/// where the map has no such key.
#[verifier::external_body]
pub(crate) fn object_get<'a>(object: &'a serde_json::Map<String, Value>, key: &str) -> (r:
    Option<&'a Value>)
    ensures
        match r {
            Some(v) => entries_of(*object).contains_key(key@) && entries_of(*object)[key@]
                == tree_of(*v),
            None => !entries_of(*object).contains_key(key@),
        },
{
    object.get(key)
}

/// Calls `Map::keys` and copies the keys out: every key of the map, each once.
#[verifier::external_body]
pub(crate) fn object_keys(object: &serde_json::Map<String, Value>) -> (r: Vec<String>)
    ensures
        r.deep_view().no_duplicates(),
        r.deep_view().to_set() == entries_of(*object).dom(),
{
    object.keys().cloned().collect()
}

/// Calls `Value::as_u64`: the integer of a number stored as an unsigned
/// integer, `None` for any other value.
#[verifier::external_body]
pub(crate) fn as_u64(value: &Value) -> (r: Option<u64>)
    ensures
        match r {
            Some(n) => tree_of(*value) == JsonTree::Number(JsonNumber::Unsigned(n)),
            None => !(tree_of(*value) matches JsonTree::Number(JsonNumber::Unsigned(_))),
        },
{
    value.as_u64()
}

/// Calls `Value::as_str`: the text of a string, `None` for any other value.
#[verifier::external_body]
pub(crate) fn as_str<'a>(value: &'a Value) -> (r: Option<&'a str>)
    ensures
        match r {
            Some(s) => tree_of(*value) == JsonTree::Text(s@),
            None => !(tree_of(*value) is Text),
        },
{
    value.as_str()
}

/// Calls `Value::as_array`: the elements of an array, `None` for any other
/// value.
#[verifier::external_body]
pub(crate) fn as_array<'a>(value: &'a Value) -> (r: Option<&'a Vec<Value>>)
    ensures
        match r {
            Some(items) => tree_of(*value) == JsonTree::List(trees_of(items@)),
            None => !(tree_of(*value) is List),
        },
{
    value.as_array()
}

/// Calls `Value::is_null`.
#[verifier::external_body]
pub(crate) fn is_null(value: &Value) -> (r: bool)
    ensures
        r == (tree_of(*value) is Null),
{
    value.is_null()
}

/// Calls `Map::new`: a map without members.
#[verifier::external_body]
pub(crate) fn object_new() -> (r: serde_json::Map<String, Value>)
    ensures
        entries_of(r) == Fields::empty(),
{
    serde_json::Map::new()
}

/// Calls `Map::insert`: the member under `key` is now `value`, whether or not
/// the key was there before; the other members stay.
#[verifier::external_body]
pub(crate) fn object_insert(
    object: &mut serde_json::Map<String, Value>,
    key: String,
    value: Value,
)
    ensures
        entries_of(*final(object)) == entries_of(*old(object)).insert(key@, tree_of(value)),
{
    object.insert(key, value);
}

/// Builds `Value::Object` from a map.
#[verifier::external_body]
pub(crate) fn object_value(object: serde_json::Map<String, Value>) -> (r: Value)
    ensures
        tree_of(r) == JsonTree::Record(entries_of(object)),
{
    Value::Object(object)
}

/// Calls `Value::from` on a `u64`: a number stored as an unsigned integer.
#[verifier::external_body]
pub(crate) fn number_value(n: u64) -> (r: Value)
    ensures
        tree_of(r) == JsonTree::Number(JsonNumber::Unsigned(n)),
{
    Value::from(n)
}

/// Builds `Value::String` from a string.
#[verifier::external_body]
pub(crate) fn text_value(text: String) -> (r: Value)
    ensures
        tree_of(r) == JsonTree::Text(text@),
{
    Value::String(text)
}

/// Builds `Value::Array` from its elements.
#[verifier::external_body]
pub(crate) fn list_value(items: Vec<Value>) -> (r: Value)
    ensures
        tree_of(r) == JsonTree::List(trees_of(items@)),
{
    Value::Array(items)
}

} // verus!
