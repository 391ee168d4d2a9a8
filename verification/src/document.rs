//! Reading a JSON document from the bytes of a request body.

use crate::json::{
    lemma_array_view, lemma_object_view, member_views_of, views_of, Json, JsonValue,
};
use vstd::prelude::*;

verus! {

/// `serde_json::Value`: a document as `serde_json` holds it. Nothing inside
/// it is seen from here.
#[verifier::external_type_specification]
#[verifier::external_body]
pub struct ExValue(serde_json::Value);

/// `serde_json::Error`: why `serde_json` refused a text.
#[verifier::external_type_specification]
#[verifier::external_body]
pub struct ExError(serde_json::Error);

/// The document that `text` spells, as `serde_json::from_slice` reads it, or
/// `None` where `text` is not one JSON document.
pub uninterp spec fn json_document(text: Seq<u8>) -> Option<JsonValue>;

/// What a `serde_json::Value` holds: `null`, a boolean, a string, an array
/// of what its items hold, an object of what its members hold, or a number,
/// which stands as `Unsigned` where it is an integer from 0 to 2^64 - 1 and
/// as `OtherNumber` where it is not.
pub uninterp spec fn value_tree(value: serde_json::Value) -> JsonValue;

/// What a list of values holds, value by value.
pub open spec fn trees_of(values: Seq<serde_json::Value>) -> Seq<JsonValue> {
    Seq::new(values.len(), |i: int| value_tree(values[i]))
}

/// What a list of members holds: each name with what its value holds.
pub open spec fn member_trees_of(members: Seq<(&String, &serde_json::Value)>) -> Seq<
    (Seq<char>, JsonValue),
> {
    Seq::new(members.len(), |i: int| (members[i].0@, value_tree(*members[i].1)))
}

/// One level of a `serde_json::Value`: its own kind and content, with the
/// values below it left as they are.
enum Node<'a> {
    Null,
    Bool(bool),
    Number,
    Text(&'a str),
    Array(&'a Vec<serde_json::Value>),
    Object(Vec<(&'a String, &'a serde_json::Value)>),
}

/// `serde_json::from_slice` for a `serde_json::Value`.
#[verifier::external_body]
fn parse_value(text: &[u8]) -> (r: Result<serde_json::Value, serde_json::Error>)
    ensures
        match r {
            Ok(value) => json_document(text@) == Some(value_tree(value)),
            Err(_) => json_document(text@) is None,
        },
{
    serde_json::from_slice(text)
}

/// Tells the variants of a `serde_json::Value` apart. An array hands out its
/// items in order; an object hands out its members in the order in which its
/// map walks them.
#[verifier::external_body]
fn unfold<'a>(value: &'a serde_json::Value) -> (node: Node<'a>)
    ensures
        match node {
            Node::Null => value_tree(*value) == JsonValue::Null,
            Node::Bool(b) => value_tree(*value) == JsonValue::Bool(b),
            Node::Number => value_tree(*value) is Unsigned || value_tree(*value) is OtherNumber,
            Node::Text(s) => value_tree(*value) == JsonValue::Text(s@),
            Node::Array(items) => value_tree(*value) == JsonValue::Array(trees_of(items@)),
            Node::Object(members) => value_tree(*value) == JsonValue::Object(
                member_trees_of(members@),
            ),
        },
{
    match value {
        serde_json::Value::Null => Node::Null,
        serde_json::Value::Bool(b) => Node::Bool(*b),
        serde_json::Value::Number(_) => Node::Number,
        serde_json::Value::String(s) => Node::Text(s.as_str()),
        serde_json::Value::Array(items) => Node::Array(items),
        serde_json::Value::Object(map) => Node::Object(map.iter().collect()),
    }
}

/// `serde_json::Value::as_u64`: the number, where the value is an integer
/// from 0 to 2^64 - 1.
pub assume_specification[ serde_json::Value::as_u64 ](value: &serde_json::Value) -> (r: Option<u64>)
    ensures
        r == (match value_tree(*value) {
            JsonValue::Unsigned(n) => Some(n),
            _ => None,
        }),
;

/// Copies a `serde_json::Value` into a tree of this library.
fn tree_from_value(value: &serde_json::Value) -> (json: Json)
    ensures
        json@ == value_tree(*value),
    decreases value_tree(*value),
{
    match unfold(value) {
        Node::Null => Json::Null,
        Node::Bool(b) => Json::Bool(b),
        Node::Number => match value.as_u64() {
            Some(n) => Json::Unsigned(n),
            None => Json::OtherNumber,
        },
        Node::Text(s) => Json::Text(s.to_owned()),
        Node::Array(items) => {
            let mut out: Vec<Json> = Vec::new();
            let mut i: usize = 0;
            while i < items.len()
                invariant
                    i <= items@.len(),
                    out@.len() == i,
                    value_tree(*value) == JsonValue::Array(trees_of(items@)),
                    forall|k: int| 0 <= k < i ==> (#[trigger] out@[k])@ == value_tree(items@[k]),
                decreases items@.len() - i,
            {
                proof {
                    // An item of an array is smaller than the array.
                    match value_tree(*value) {
                        JsonValue::Array(below) => {
                            assert(below[i as int] == value_tree(items@[i as int]));
                            assert(decreases_to!(value_tree(*value) => below[i as int]));
                        },
                        _ => {},
                    }
                }
                let item = tree_from_value(&items[i]);
                out.push(item);
                i += 1;
            }
            let json = Json::Array(out);
            proof {
                lemma_array_view(json);
                assert(views_of(out@) =~= value_tree(*value)->Array_0);
            }
            json
        },
        Node::Object(members) => {
            let mut out: Vec<(String, Json)> = Vec::new();
            let mut i: usize = 0;
            while i < members.len()
                invariant
                    i <= members@.len(),
                    out@.len() == i,
                    value_tree(*value) == JsonValue::Object(member_trees_of(members@)),
                    forall|k: int|
                        0 <= k < i ==> ((#[trigger] out@[k]).0@, out@[k].1@) == (
                            members@[k].0@,
                            value_tree(*members@[k].1),
                        ),
                decreases members@.len() - i,
            {
                proof {
                    // The value of a member is smaller than the object.
                    match value_tree(*value) {
                        JsonValue::Object(below) => {
                            assert(below[i as int].1 == value_tree(*members@[i as int].1));
                            assert(decreases_to!(value_tree(*value) => below[i as int].1));
                        },
                        _ => {},
                    }
                }
                let name = members[i].0.clone();
                let item = tree_from_value(members[i].1);
                out.push((name, item));
                i += 1;
            }
            let json = Json::Object(out);
            proof {
                lemma_object_view(json);
                assert(member_views_of(out@) =~= value_tree(*value)->Object_0);
            }
            json
        },
    }
}

/// Reads `text` as one JSON document.
pub fn parse_document(text: &[u8]) -> (r: Option<Json>)
    ensures
        match r {
            Some(json) => json_document(text@) == Some(json@),
            None => json_document(text@) is None,
        },
{
    match parse_value(text) {
        Ok(value) => Some(tree_from_value(&value)),
        Err(_) => None,
    }
}

} // verus!
