//! Reading and writing the members of JSON objects.
//!
//! Each reader comes with a specification function over [`Fields`] that says
//! what it finds; each writer says which member it adds. Payload codecs are
//! written with these.
use vstd::prelude::*;
use serde_json::Value;
use crate::json::{
    as_array, as_object, as_str, as_u64, entries_of, is_null, list_value, number_value,
    object_get, object_insert, object_value, text_value, tree_of, trees_of, Fields, JsonNumber,
    JsonTree,
};

verus! {

/// The text under `key`, where there is a member under `key` and it is a
/// string.
pub open spec fn text_at(fields: Fields, key: Seq<char>) -> Option<Seq<char>> {
    if fields.contains_key(key) {
        match fields[key] {
            JsonTree::Text(text) => Some(text),
            _ => None,
        }
    } else {
        None
    }
}

/// The optional integer under `key`: unset where the key is absent or its
/// member is `null`, set where the member is an unsigned integer, and
/// `None` where the member is anything else.
pub open spec fn optional_unsigned_at(fields: Fields, key: Seq<char>) -> Option<Option<u64>> {
    if fields.contains_key(key) {
        match fields[key] {
            JsonTree::Null => Some(None),
            JsonTree::Number(JsonNumber::Unsigned(n)) => Some(Some(n)),
            _ => None,
        }
    } else {
        Some(None)
    }
}

/// The members of the object under `key`, where there is one.
pub open spec fn record_at(fields: Fields, key: Seq<char>) -> Option<Fields> {
    if fields.contains_key(key) {
        match fields[key] {
            JsonTree::Record(members) => Some(members),
            _ => None,
        }
    } else {
        None
    }
}

/// The elements of the array under `key`, where there is one.
pub open spec fn list_at(fields: Fields, key: Seq<char>) -> Option<Seq<JsonTree>> {
    if fields.contains_key(key) {
        match fields[key] {
            JsonTree::List(items) => Some(items),
            _ => None,
        }
    } else {
        None
    }
}

/// The texts of `items`, where every one of them is a string.
pub open spec fn texts_in(items: Seq<JsonTree>) -> Option<Seq<Seq<char>>> {
    if forall|i: int| 0 <= i < items.len() ==> (#[trigger] items[i]) is Text {
        Some(Seq::new(items.len(), |i: int| items[i]->Text_0))
    } else {
        None
    }
}

/// Whether `tree` is an unsigned integer that fits a `usize`.
pub open spec fn is_size(tree: JsonTree) -> bool {
    tree matches JsonTree::Number(JsonNumber::Unsigned(n)) && n <= usize::MAX
}

/// The unsigned integer that `tree` holds, as a `usize`.
pub open spec fn size_in(tree: JsonTree) -> usize
    recommends
        is_size(tree),
{
    (tree->Number_0->Unsigned_0) as usize
}

/// The integers of `items`, where every one of them is an unsigned integer
/// that fits a `usize`.
pub open spec fn sizes_in(items: Seq<JsonTree>) -> Option<Seq<usize>> {
    if forall|i: int| 0 <= i < items.len() ==> is_size(#[trigger] items[i]) {
        Some(Seq::new(items.len(), |i: int| size_in(items[i])))
    } else {
        None
    }
}

/// The size under `key`, where there is a member under `key` and it is an
/// unsigned integer that fits a `usize`.
pub open spec fn size_at(fields: Fields, key: Seq<char>) -> Option<usize> {
    if fields.contains_key(key) && is_size(fields[key]) {
        Some(size_in(fields[key]))
    } else {
        None
    }
}

/// The strings that stand for `texts`, in order.
pub open spec fn text_trees(texts: Seq<Seq<char>>) -> Seq<JsonTree> {
    Seq::new(texts.len(), |i: int| JsonTree::Text(texts[i]))
}

/// The tree that stands for a size.
pub open spec fn size_tree(size: usize) -> JsonTree {
    JsonTree::Number(JsonNumber::Unsigned(size as u64))
}

/// The numbers that stand for `sizes`, in order.
pub open spec fn size_trees(sizes: Seq<usize>) -> Seq<JsonTree> {
    Seq::new(sizes.len(), |i: int| size_tree(sizes[i]))
}

/// Reading back the strings written for `texts` gives `texts`.
pub proof fn lemma_texts_round_trip(texts: Seq<Seq<char>>)
    ensures
        texts_in(text_trees(texts)) == Some(texts),
{
}

/// Reading back the numbers written for `sizes` gives `sizes`.
pub proof fn lemma_sizes_round_trip(sizes: Seq<usize>)
    ensures
        sizes_in(size_trees(sizes)) == Some(sizes),
{
}

/// Whether two texts are the same.
pub fn same_text(text: &String, other: &str) -> (same: bool)
    ensures
        same == (text@ == other@),
{
    let other: String = other.to_owned();
    *text == other
}

/// Reads the string under `key`.
pub fn read_text(object: &serde_json::Map<String, Value>, key: &str) -> (r: Option<String>)
    ensures
        match r {
            Some(text) => text_at(entries_of(*object), key@) == Some(text@),
            None => text_at(entries_of(*object), key@) is None,
        },
{
    match object_get(object, key) {
        Some(value) => match as_str(value) {
            Some(text) => Some(text.to_owned()),
            None => None,
        },
        None => None,
    }
}

/// Reads the optional unsigned integer under `key`: `Some(None)` where the
/// key is absent or holds `null`.
pub fn read_optional_unsigned(object: &serde_json::Map<String, Value>, key: &str) -> (r: Option<
    Option<u64>,
>)
    ensures
        r == optional_unsigned_at(entries_of(*object), key@),
{
    match object_get(object, key) {
        Some(value) => {
            if is_null(value) {
                Some(None)
            } else {
                match as_u64(value) {
                    Some(n) => Some(Some(n)),
                    None => None,
                }
            }
        },
        None => Some(None),
    }
}

/// Reads the object under `key`.
pub fn read_record<'a>(object: &'a serde_json::Map<String, Value>, key: &str) -> (r: Option<
    &'a serde_json::Map<String, Value>,
>)
    ensures
        match r {
            Some(members) => record_at(entries_of(*object), key@) == Some(entries_of(*members)),
            None => record_at(entries_of(*object), key@) is None,
        },
{
    match object_get(object, key) {
        Some(value) => as_object(value),
        None => None,
    }
}

/// Reads the array under `key`.
pub fn read_list<'a>(object: &'a serde_json::Map<String, Value>, key: &str) -> (r: Option<
    &'a Vec<Value>,
>)
    ensures
        match r {
            Some(items) => list_at(entries_of(*object), key@) == Some(trees_of(items@)),
            None => list_at(entries_of(*object), key@) is None,
        },
{
    match object_get(object, key) {
        Some(value) => as_array(value),
        None => None,
    }
}

/// Reads a size out of a value.
pub fn read_size_value(value: &Value) -> (r: Option<usize>)
    ensures
        match r {
            Some(size) => is_size(tree_of(*value)) && size == size_in(tree_of(*value)),
            None => !is_size(tree_of(*value)),
        },
{
    match as_u64(value) {
        Some(n) => {
            if n <= usize::MAX as u64 {
                Some(n as usize)
            } else {
                None
            }
        },
        None => None,
    }
}

/// Reads the size under `key`.
pub fn read_size(object: &serde_json::Map<String, Value>, key: &str) -> (r: Option<usize>)
    ensures
        r == size_at(entries_of(*object), key@),
{
    match object_get(object, key) {
        Some(value) => read_size_value(value),
        None => None,
    }
}

/// Reads an array of strings.
pub fn read_texts(items: &Vec<Value>) -> (r: Option<Vec<String>>)
    ensures
        match r {
            Some(texts) => texts_in(trees_of(items@)) == Some(texts.deep_view()),
            None => texts_in(trees_of(items@)) is None,
        },
{
    let ghost trees = trees_of(items@);
    let mut texts: Vec<String> = Vec::new();
    let mut i: usize = 0;
    while i < items.len()
        invariant
            i <= items.len(),
            trees == trees_of(items@),
            texts.len() == i,
            forall|j: int| 0 <= j < i ==> trees[j] == JsonTree::Text(#[trigger] texts[j]@),
        decreases items.len() - i,
    {
        match as_str(&items[i]) {
            Some(text) => {
                texts.push(text.to_owned());
            },
            None => {
                assert(!(trees[i as int] is Text));
                return None;
            },
        }
        i += 1;
    }
    proof {
        assert forall|j: int| 0 <= j < trees.len() implies (#[trigger] trees[j]) is Text by {
            assert(trees[j] == JsonTree::Text(texts[j]@));
        }
    }
    Some(texts)
}

/// Reads an array of sizes.
pub fn read_sizes(items: &Vec<Value>) -> (r: Option<Vec<usize>>)
    ensures
        match r {
            Some(sizes) => sizes_in(trees_of(items@)) == Some(sizes@),
            None => sizes_in(trees_of(items@)) is None,
        },
{
    let ghost trees = trees_of(items@);
    let mut sizes: Vec<usize> = Vec::new();
    let mut i: usize = 0;
    while i < items.len()
        invariant
            i <= items.len(),
            trees == trees_of(items@),
            sizes.len() == i,
            forall|j: int|
                0 <= j < i ==> is_size(#[trigger] trees[j]) && sizes[j] == size_in(trees[j]),
        decreases items.len() - i,
    {
        match read_size_value(&items[i]) {
            Some(size) => {
                sizes.push(size);
            },
            None => {
                assert(!is_size(trees[i as int]));
                return None;
            },
        }
        i += 1;
    }
    Some(sizes)
}

/// Adds the string `text` under `key`.
pub fn write_text(object: &mut serde_json::Map<String, Value>, key: &str, text: &str)
    ensures
        entries_of(*final(object)) == entries_of(*old(object)).insert(key@, JsonTree::Text(text@)),
{
    object_insert(object, key.to_owned(), text_value(text.to_owned()));
}

/// Adds the unsigned integer `n` under `key`.
pub fn write_unsigned(object: &mut serde_json::Map<String, Value>, key: &str, n: u64)
    ensures
        entries_of(*final(object)) == entries_of(*old(object)).insert(
            key@,
            JsonTree::Number(JsonNumber::Unsigned(n)),
        ),
{
    object_insert(object, key.to_owned(), number_value(n));
}

/// Adds the size `size` under `key`.
pub fn write_size(object: &mut serde_json::Map<String, Value>, key: &str, size: usize)
    ensures
        entries_of(*final(object)) == entries_of(*old(object)).insert(key@, size_tree(size)),
{
    object_insert(object, key.to_owned(), number_value(size as u64));
}

/// Adds the array of strings `texts` under `key`.
pub fn write_texts(object: &mut serde_json::Map<String, Value>, key: &str, texts: &Vec<String>)
    ensures
        entries_of(*final(object)) == entries_of(*old(object)).insert(
            key@,
            JsonTree::List(text_trees(texts.deep_view())),
        ),
{
    object_insert(object, key.to_owned(), texts_value(texts));
}

/// Adds the array of numbers `sizes` under `key`.
pub fn write_sizes(object: &mut serde_json::Map<String, Value>, key: &str, sizes: &Vec<usize>)
    ensures
        entries_of(*final(object)) == entries_of(*old(object)).insert(
            key@,
            JsonTree::List(size_trees(sizes@)),
        ),
{
    object_insert(object, key.to_owned(), sizes_value(sizes));
}

/// Adds the object with the members `members` under `key`.
pub fn write_record(
    object: &mut serde_json::Map<String, Value>,
    key: &str,
    members: serde_json::Map<String, Value>,
)
    ensures
        entries_of(*final(object)) == entries_of(*old(object)).insert(
            key@,
            JsonTree::Record(entries_of(members)),
        ),
{
    object_insert(object, key.to_owned(), object_value(members));
}

/// The array of strings that stands for `texts`.
fn texts_value(texts: &Vec<String>) -> (r: Value)
    ensures
        tree_of(r) == JsonTree::List(text_trees(texts.deep_view())),
{
    let mut items: Vec<Value> = Vec::new();
    let mut i: usize = 0;
    while i < texts.len()
        invariant
            i <= texts.len(),
            items.len() == i,
            forall|j: int| 0 <= j < i ==> tree_of(#[trigger] items[j]) == JsonTree::Text(texts[j]@),
        decreases texts.len() - i,
    {
        items.push(text_value(texts[i].clone()));
        i += 1;
    }
    assert(trees_of(items@) =~= text_trees(texts.deep_view()));
    list_value(items)
}

/// The array of numbers that stands for `sizes`.
fn sizes_value(sizes: &Vec<usize>) -> (r: Value)
    ensures
        tree_of(r) == JsonTree::List(size_trees(sizes@)),
{
    let mut items: Vec<Value> = Vec::new();
    let mut i: usize = 0;
    while i < sizes.len()
        invariant
            i <= sizes.len(),
            items.len() == i,
            forall|j: int| 0 <= j < i ==> tree_of(#[trigger] items[j]) == size_tree(sizes[j]),
        decreases sizes.len() - i,
    {
        items.push(number_value(sizes[i] as u64));
        i += 1;
    }
    assert(trees_of(items@) =~= size_trees(sizes@));
    list_value(items)
}

} // verus!
