//! Reading and writing documents as YAML text, by `serde_yaml`.

use crate::document::{node_view, Node, NodeView};
use serde_yaml::value::{Tag, TaggedValue};
use serde_yaml::{Number, Value};
use vstd::prelude::*;

verus! {

/// `serde_yaml::Value`, as a type that nothing is known of.
#[verifier::external_type_specification]
#[verifier::external_body]
pub struct ExYamlValue(Value);

/// `serde_yaml::Error`, as a type that nothing is known of.
#[verifier::external_type_specification]
#[verifier::external_body]
pub struct ExYamlError(serde_yaml::Error);

/// The document that `serde_yaml::from_str` reads from a text as a
/// `serde_yaml::Value`, where it reads one.
pub uninterp spec fn yaml_document(text: Seq<char>) -> Option<NodeView>;

/// The text that `serde_yaml::to_string` writes for the `serde_yaml::Value`
/// that a document stands for, where it writes one.
pub uninterp spec fn yaml_text(doc: NodeView) -> Option<Seq<char>>;

/// Why a text could not be read or a document not be written, in the words
/// of `serde_yaml`.
#[derive(Debug, PartialEq, Eq)]
pub struct YamlFailure {
    pub message: String,
}

/// Takes a `serde_yaml::Number` apart by `Number::as_u64` and
/// `Number::as_i64`: an integer from 0 to the largest of 64 bits, a negative
/// integer, or else a number that is carried as it is. Nothing is claimed of
/// the result.
#[verifier::external_body]
fn node_of_number(n: Number) -> Node {
    match (n.as_u64(), n.as_i64()) {
        (Some(u), _) => Node::Unsigned(u),
        (None, Some(i)) => Node::Signed(i),
        (None, None) => Node::Real(n),
    }
}

/// Takes a `serde_yaml::Value` apart, variant by variant and all the way
/// down; the entries of a mapping and the items of a sequence keep their
/// order. Nothing is claimed of the result.
#[verifier::external_body]
fn node_of_value(v: Value) -> Node {
    match v {
        Value::Null => Node::Null,
        Value::Bool(b) => Node::Bool(b),
        Value::Number(n) => node_of_number(n),
        Value::String(s) => Node::Text(s),
        Value::Sequence(s) => Node::Sequence(s.into_iter().map(node_of_value).collect()),
        Value::Mapping(m) => Node::Mapping(
            m.into_iter().map(|(k, v)| (node_of_value(k), node_of_value(v))).collect(),
        ),
        Value::Tagged(t) => Node::Tagged(t.tag, Box::new(node_of_value(t.value))),
    }
}

/// Builds the `serde_yaml::Value` that a tagged node stands for. Nothing is
/// claimed of the result.
#[verifier::external_body]
fn value_of_tagged(tag: &Tag, inner: &Node) -> Value {
    Value::Tagged(Box::new(TaggedValue { tag: tag.clone(), value: value_of_node(inner) }))
}

/// Builds the `serde_yaml::Value` that a node stands for, variant by variant
/// and all the way down. The entries of a mapping are collected into a
/// `serde_yaml::Mapping` in order, so of two entries with one key the later
/// value stands in the earlier place. Nothing is claimed of the result.
#[verifier::external_body]
fn value_of_node(n: &Node) -> Value {
    match n {
        Node::Null => Value::Null,
        Node::Bool(b) => Value::Bool(*b),
        Node::Unsigned(u) => Value::Number(Number::from(*u)),
        Node::Signed(i) => Value::Number(Number::from(*i)),
        Node::Real(r) => Value::Number(r.clone()),
        Node::Text(s) => Value::String(s.clone()),
        Node::Sequence(s) => Value::Sequence(s.iter().map(value_of_node).collect()),
        Node::Mapping(m) => Value::Mapping(
            m.iter().map(|e| (value_of_node(&e.0), value_of_node(&e.1))).collect(),
        ),
        Node::Tagged(t, inner) => value_of_tagged(t, inner),
    }
}

/// `serde_yaml::from_str` for a `serde_yaml::Value`, which is then taken
/// apart as a tree: the result is the document that `yaml_document` names
/// for the text, and the error of `serde_yaml` where it names none.
#[verifier::external_body]
fn read_value(text: &str) -> (r: Result<Node, serde_yaml::Error>)
    ensures
        match r {
            Ok(doc) => yaml_document(text@) == Some(node_view(doc)),
            Err(_) => yaml_document(text@) is None,
        },
{
    serde_yaml::from_str::<serde_yaml::Value>(text).map(node_of_value)
}

/// `serde_yaml::to_string` for the `serde_yaml::Value` that the tree stands
/// for: the result is the text that `yaml_text` names for the document, and
/// the error of `serde_yaml` where it names none.
#[verifier::external_body]
fn write_value(doc: &Node) -> (r: Result<String, serde_yaml::Error>)
    ensures
        match r {
            Ok(text) => yaml_text(node_view(*doc)) == Some(text@),
            Err(_) => yaml_text(node_view(*doc)) is None,
        },
{
    serde_yaml::to_string(&value_of_node(doc))
}

/// The message of a `serde_yaml::Error`, as its `Display` writes it. Nothing
/// is claimed of the message.
#[verifier::external_body]
fn failure_text(e: &serde_yaml::Error) -> (r: String) {
    e.to_string()
}

/// Reads a document from YAML text.
pub fn read_document(text: &str) -> (r: Result<Node, YamlFailure>)
    ensures
        match r {
            Ok(doc) => yaml_document(text@) == Some(node_view(doc)),
            Err(_) => yaml_document(text@) is None,
        },
{
    match read_value(text) {
        Ok(doc) => Ok(doc),
        Err(e) => Err(YamlFailure { message: failure_text(&e) }),
    }
}

/// Writes a document as YAML text.
pub fn write_document(doc: &Node) -> (r: Result<String, YamlFailure>)
    ensures
        match r {
            Ok(text) => yaml_text(node_view(*doc)) == Some(text@),
            Err(_) => yaml_text(node_view(*doc)) is None,
        },
{
    match write_value(doc) {
        Ok(text) => Ok(text),
        Err(e) => Err(YamlFailure { message: failure_text(&e) }),
    }
}

} // verus!
