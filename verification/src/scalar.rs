//! Coercion of a resolved value to one of the supported scalar types.

use vstd::prelude::*;
use crate::error::{ConfigError, Failure};
use crate::outside::node_of;
use crate::tree::Node;

verus! {

/// The variant of a `toml::Value`, with the payload of the scalar ones.
pub enum Shape {
    Text(String),
    Integer(i64),
    Float(u64),
    Boolean(bool),
    Datetime,
    Array,
    Table,
}

/// A value of one of the four supported types.
#[derive(Debug, Clone, PartialEq, Eq)]
pub enum Scalar {
    Boolean(bool),
    Text(String),
    /// The bit pattern of a binary64 number.
    Float(u64),
    Integer(i64),
}

impl View for Scalar {
    type V = Node;

    open spec fn view(&self) -> Node {
        match *self {
            Scalar::Boolean(value) => Node::Boolean(value),
            Scalar::Text(value) => Node::Text(value@),
            Scalar::Float(bits) => Node::Float(bits),
            Scalar::Integer(value) => Node::Integer(value),
        }
    }
}

/// Whether a node is a boolean, a string, a float or an integer.
pub open spec fn is_scalar(node: Node) -> bool {
    node is Boolean || node is Text || node is Float || node is Integer
}

/// Whether `shape` is the variant of `node`, with its payload where it has one.
pub open spec fn shape_fits(shape: Shape, node: Node) -> bool {
    match shape {
        Shape::Text(text) => node == Node::Text(text@),
        Shape::Integer(value) => node == Node::Integer(value),
        Shape::Float(bits) => node == Node::Float(bits),
        Shape::Boolean(value) => node == Node::Boolean(value),
        Shape::Datetime => node is Datetime,
        Shape::Array => node is Array,
        Shape::Table => node is Table,
    }
}

/// What coercion makes of a node: the node itself where it is a scalar, a
/// refusal otherwise.
pub open spec fn coerced(node: Node) -> Result<Node, Failure> {
    if is_scalar(node) {
        Ok(node)
    } else {
        Err(Failure::UnsupportedValueType)
    }
}

/// What coercion makes of a value of known shape: its payload where it is a
/// scalar, a refusal where it is a date, an array or a table.
pub open spec fn coerced_shape(shape: Shape) -> Result<Node, Failure> {
    match shape {
        Shape::Text(text) => Ok(Node::Text(text@)),
        Shape::Integer(value) => Ok(Node::Integer(value)),
        Shape::Float(bits) => Ok(Node::Float(bits)),
        Shape::Boolean(value) => Ok(Node::Boolean(value)),
        _ => Err(Failure::UnsupportedValueType),
    }
}

/// The outcome of a coercion as contracts see it.
pub open spec fn scalar_outcome(outcome: Result<Scalar, ConfigError>) -> Result<Node, Failure> {
    match outcome {
        Ok(scalar) => Ok(scalar@),
        Err(error) => Err(error@),
    }
}

/// Coerces a value of known shape: a scalar passes unchanged, with its own
/// type; a date, an array or a table is refused.
pub fn coerce_shape(shape: Shape) -> (outcome: Result<Scalar, ConfigError>)
    ensures
        scalar_outcome(outcome) == coerced_shape(shape),
{
    match shape {
        Shape::Boolean(value) => Ok(Scalar::Boolean(value)),
        Shape::Text(value) => Ok(Scalar::Text(value)),
        Shape::Float(bits) => Ok(Scalar::Float(bits)),
        Shape::Integer(value) => Ok(Scalar::Integer(value)),
        _ => Err(ConfigError::UnsupportedValueType),
    }
}

/// Coerces a resolved value to a scalar.
pub fn coerce(value: &toml::Value) -> (outcome: Result<Scalar, ConfigError>)
    ensures
        scalar_outcome(outcome) == coerced(node_of(*value)),
{
    coerce_shape(crate::outside::value_shape(value))
}

} // verus!
