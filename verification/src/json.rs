//! JSON documents as plain trees. `serde_json` reads them from text and
//! writes string literals; what is done with a document is decided here.

use vstd::prelude::*;
use crate::text::same_text;

verus! {

/// A JSON document held as a plain tree. A number keeps no value: nothing in
/// this crate reads one.
#[derive(Debug)]
pub enum Json {
    Null,
    Bool(bool),
    Number,
    Text(String),
    Array(Vec<Json>),
    Object(Vec<Member>),
}

/// One entry of a JSON object.
#[derive(Debug)]
pub struct Member {
    pub key: String,
    pub value: Json,
}

/// The mathematical value of a JSON document.
pub ghost enum JsonValue {
    Null,
    Bool(bool),
    Number,
    Text(Seq<char>),
    Array(Seq<JsonValue>),
    Object(Seq<(Seq<char>, JsonValue)>),
}

/// The value that a tree holds.
pub open spec fn value_of(tree: Json) -> JsonValue
    decreases tree,
{
    match tree {
        Json::Null => JsonValue::Null,
        Json::Bool(b) => JsonValue::Bool(b),
        Json::Number => JsonValue::Number,
        Json::Text(s) => JsonValue::Text(s@),
        Json::Array(items) => JsonValue::Array(
            Seq::new(
                items@.len(),
                |i: int|
                    if 0 <= i < items@.len() {
                        value_of(items@[i])
                    } else {
                        JsonValue::Null
                    },
            ),
        ),
        Json::Object(entries) => JsonValue::Object(
            Seq::new(
                entries@.len(),
                |i: int|
                    if 0 <= i < entries@.len() {
                        (entries@[i].key@, value_of(entries@[i].value))
                    } else {
                        (Seq::empty(), JsonValue::Null)
                    },
            ),
        ),
    }
}

impl View for Json {
    type V = JsonValue;

    open spec fn view(&self) -> JsonValue {
        value_of(*self)
    }
}

/// The value of the first entry of `entries` whose key is `key`.
pub open spec fn member(entries: Seq<(Seq<char>, JsonValue)>, key: Seq<char>) -> Option<
    JsonValue,
>
    decreases entries.len(),
{
    if entries.len() == 0 {
        None
    } else if entries[0].0 == key {
        Some(entries[0].1)
    } else {
        member(entries.drop_first(), key)
    }
}

impl JsonValue {
    /// The member `key` of an object; nothing where `self` is no object or has
    /// no such member.
    pub open spec fn field(self, key: Seq<char>) -> Option<JsonValue> {
        match self {
            JsonValue::Object(entries) => member(entries, key),
            _ => None,
        }
    }
}

/// The entries of an object's value are those of the object, one for one.
pub proof fn lemma_object_entries(entries: Vec<Member>)
    ensures
        Json::Object(entries)@ is Object,
        (Json::Object(entries)@->Object_0).len() == entries@.len(),
        forall|k: int|
            0 <= k < entries@.len() ==> (Json::Object(entries)@->Object_0)[k] == (
                (#[trigger] entries@[k]).key@,
                entries@[k].value@,
            ),
{
}

/// The items of an array's value are those of the array, one for one.
pub proof fn lemma_array_items(items: Vec<Json>)
    ensures
        Json::Array(items)@ is Array,
        (Json::Array(items)@->Array_0).len() == items@.len(),
        forall|k: int|
            0 <= k < items@.len() ==> (Json::Array(items)@->Array_0)[k] == (#[trigger] items@[k])@,
{
}

impl Json {
    /// The member `key` of an object, where there is one.
    pub fn field<'a>(&'a self, key: &str) -> (r: Option<&'a Json>)
        ensures
            match r {
                Some(found) => self@.field(key@) == Some(found@),
                None => self@.field(key@) is None,
            },
    {
        match self {
            Json::Object(entries) => {
                let ghost all = self@->Object_0;
                proof {
                    lemma_object_entries(*entries);
                    assert(all.subrange(0, all.len() as int) =~= all);
                }
                let mut i: usize = 0;
                while i < entries.len()
                    invariant
                        i <= entries.len(),
                        self@ == JsonValue::Object(all),
                        all.len() == entries@.len(),
                        forall|k: int|
                            0 <= k < all.len() ==> all[k] == (
                                (#[trigger] entries@[k]).key@,
                                entries@[k].value@,
                            ),
                        member(all, key@) == member(all.subrange(i as int, all.len() as int), key@),
                    decreases entries.len() - i,
                {
                    let ghost rest = all.subrange(i as int, all.len() as int);
                    assert(rest[0] == all[i as int]);
                    if same_text(entries[i].key.as_str(), key) {
                        return Some(&entries[i].value);
                    }
                    assert(rest.drop_first() =~= all.subrange(i + 1, all.len() as int));
                    i += 1;
                }
                None
            },
            _ => None,
        }
    }
}

/// `serde_json::Value`, carried from the parser to `tree_of_node` and not
/// looked into.
#[verifier::external_type_specification]
#[verifier::external_body]
pub struct ExJsonNode(serde_json::Value);

/// `serde_json::Error`, with which the parser refuses a text. Nothing of it
/// is read.
#[verifier::external_type_specification]
#[verifier::external_body]
pub struct ExJsonFault(serde_json::Error);

/// The document that `serde_json` reads from `text`; nothing where it refuses
/// the text.
pub uninterp spec fn parsed_document(text: Seq<char>) -> Option<JsonValue>;

/// The document that a `serde_json::Value` holds.
pub uninterp spec fn node_value(node: serde_json::Value) -> JsonValue;

/// What `serde_json` writes for a string: the JSON string literal of `text`,
/// quotes included.
pub uninterp spec fn string_literal(text: Seq<char>) -> Seq<char>;

/// `serde_json::from_str` at type `serde_json::Value`. What it accepts, and
/// the document it then gives, depend on the text alone; the contract names
/// both and says no more.
#[verifier::external_body]
fn parse_node(text: &str) -> (r: Result<serde_json::Value, serde_json::Error>)
    ensures
        match r {
            Ok(node) => parsed_document(text@) == Some(node_value(node)),
            Err(_) => parsed_document(text@) is None,
        },
{
    serde_json::from_str::<serde_json::Value>(text)
}

/// Moves a `serde_json::Value` into a tree of this crate, variant by
/// variant; the entries of an object come in the order in which its map
/// hands them out.
#[verifier::external_body]
fn tree_of_node(node: serde_json::Value) -> (tree: Json)
    ensures
        tree@ == node_value(node),
{
    match node {
        serde_json::Value::Null => Json::Null,
        serde_json::Value::Bool(b) => Json::Bool(b),
        serde_json::Value::Number(_) => Json::Number,
        serde_json::Value::String(s) => Json::Text(s),
        serde_json::Value::Array(items) => Json::Array(
            items.into_iter().map(tree_of_node).collect(),
        ),
        serde_json::Value::Object(map) => Json::Object(
            map.into_iter().map(|(key, value)| Member { key, value: tree_of_node(value) }).collect(),
        ),
    }
}

/// `serde_json::to_string` on a `str`. It cannot fail there: it writes into a
/// vector. The contract names the literal.
#[verifier::external_body]
fn string_to_json(text: &str) -> (r: String)
    ensures
        r@ == string_literal(text@),
{
    serde_json::to_string(text).unwrap_or_default()
}

/// Reads a JSON document from `text`.
pub fn parse(text: &str) -> (r: Option<Json>)
    ensures
        match r {
            Some(tree) => parsed_document(text@) == Some(tree@),
            None => parsed_document(text@) is None,
        },
{
    match parse_node(text) {
        Ok(node) => Some(tree_of_node(node)),
        Err(_) => None,
    }
}

/// Writes `text` as a JSON string literal.
pub fn quote(text: &str) -> (r: String)
    ensures
        r@ == string_literal(text@),
{
    string_to_json(text)
}

} // verus!
