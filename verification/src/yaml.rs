//! The boundary to `serde_yaml`: text to document and document to text.
//!
//! Nothing in this file is proved. Each item states what is taken on trust
//! from the YAML crate.

use crate::document::{Node, NodeView};
use serde_yaml::{Error, Value};
use vstd::prelude::*;

verus! {

/// `serde_yaml::Error`, the crate's one error type. Nothing is known of its
/// contents.
#[verifier::external_type_specification]
#[verifier::external_body]
pub struct ExYamlError(serde_yaml::Error);

/// `serde_yaml::Value`, the crate's own tree of a document. It is only ever
/// converted from and to [`Node`].
#[verifier::external_type_specification]
#[verifier::external_body]
pub struct ExYamlValue(serde_yaml::Value);

/// The document that `serde_yaml::from_str` reads from `text`, or `None`
/// where it reports an error: text that is no single well-formed YAML
/// document.
pub uninterp spec fn yaml_document(text: Seq<char>) -> Option<NodeView>;

/// The text that `serde_yaml::to_string` writes for `document`, or `None`
/// where it reports an error.
pub uninterp spec fn yaml_text(document: NodeView) -> Option<Seq<char>>;

/// Converts a `serde_yaml::Value` to a [`Node`], variant by variant. A tagged
/// value gives the node of the value under the tag; a number gives
/// `Unsigned` where `Number::as_u64` has a value, else `Negative` where
/// `Number::as_i64` has one, else `Real` with the number's `Display` text.
/// No contract: the result is only spoken of through [`yaml_document`].
#[verifier::external_body]
fn node_of_value(value: &Value) -> Node {
    match value {
        Value::Null => Node::Null,
        Value::Bool(b) => Node::Bool(*b),
        Value::Number(n) => match (n.as_u64(), n.as_i64()) {
            (Some(u), _) => Node::Unsigned(u),
            (_, Some(i)) => Node::Negative(i),
            _ => Node::Real(n.to_string()),
        },
        Value::String(s) => Node::Text(s.clone()),
        Value::Sequence(items) => Node::Sequence(items.iter().map(node_of_value).collect()),
        Value::Mapping(entries) => Node::Mapping(entries.iter().map(|(k, v)| (node_of_value(k), node_of_value(v))).collect()),
        Value::Tagged(tagged) => node_of_value(&tagged.value),
    }
}

/// Converts a [`Node`] to a `serde_yaml::Value`, variant by variant. `Real`
/// goes through `Number::from_str`, whose error is handed on. No contract:
/// the result is only spoken of through [`yaml_text`].
#[verifier::external_body]
fn value_of_node(node: &Node) -> Result<Value, Error> {
    Ok(match node {
        Node::Null => Value::Null,
        Node::Bool(b) => Value::Bool(*b),
        Node::Unsigned(n) => Value::from(*n),
        Node::Negative(n) => Value::from(*n),
        Node::Real(digits) => Value::Number(digits.parse()?),
        Node::Text(text) => Value::String(text.clone()),
        Node::Sequence(items) => Value::Sequence(items.iter().map(value_of_node).collect::<Result<_, _>>()?),
        Node::Mapping(entries) => Value::Mapping(
            entries.iter().map(|(k, v)| Ok((value_of_node(k)?, value_of_node(v)?))).collect::<Result<_, Error>>()?,
        ),
    })
}

/// Calls `serde_yaml::from_str` for a `Value` and converts it. The contract
/// only gives the outcome its name: the same text always reads as the same
/// document, or always fails.
#[verifier::external_body]
pub(crate) fn parse(text: &str) -> (parsed: Result<Node, Error>)
    ensures
        match parsed {
            Ok(node) => yaml_document(text@) == Some(node@),
            Err(_) => yaml_document(text@) is None,
        },
{
    Ok(node_of_value(&serde_yaml::from_str::<Value>(text)?))
}

/// Converts the document and calls `serde_yaml::to_string` on it. The
/// contract only gives the outcome its name: the same document always
/// renders as the same text, or always fails.
#[verifier::external_body]
pub(crate) fn render(document: &Node) -> (rendered: Result<String, Error>)
    ensures
        match rendered {
            Ok(text) => yaml_text(document@) == Some(text@),
            Err(_) => yaml_text(document@) is None,
        },
{
    serde_yaml::to_string(&value_of_node(document)?)
}

} // verus!
