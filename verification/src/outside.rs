//! The calls into the `toml` crate and into the parts of the standard library
//! that have no specification, each behind a contract that is believed, not
//! proved.

use vstd::prelude::*;
use vstd::utf8::{decode_utf8, valid_utf8};
use crate::scalar::{shape_fits, Shape};
use crate::tree::{child, Node};

verus! {

/// `toml::Value`, a parsed TOML value. Contracts see it through `node_of`.
#[verifier::external_type_specification]
#[verifier::external_body]
pub struct ExValue(toml::Value);

/// `toml::de::Error`, the error of a failed parse. Contracts see it through
/// `diagnostic_of`.
#[verifier::external_type_specification]
#[verifier::external_body]
pub struct ExParseError(toml::de::Error);

/// `std::io::Error`, the cause of a failed read. Contracts see its kind,
/// through `kind_of`, and nothing else of it.
#[verifier::external_type_specification]
#[verifier::external_body]
pub struct ExIoError(std::io::Error);

/// `std::io::ErrorKind`, with its variants: verified code tells them apart.
#[verifier::external_type_specification]
pub struct ExIoErrorKind(std::io::ErrorKind);

/// The document tree that a `toml::Value` holds: each variant by its payload,
/// a float by its bit pattern, a date or time by its rendered text, a table by
/// its entries.
pub uninterp spec fn node_of(value: toml::Value) -> Node;

/// What `toml::from_str` makes of a text: the document, or the diagnostic of
/// the first error in it.
pub uninterp spec fn parsed(text: Seq<char>) -> Result<Node, Seq<char>>;

/// The diagnostic that a parse error displays.
pub uninterp spec fn diagnostic_of(error: toml::de::Error) -> Seq<char>;

/// The kind that an I/O error reports.
pub uninterp spec fn kind_of(error: std::io::Error) -> std::io::ErrorKind;

/// What `Path::join` makes of a base path and a path relative to it.
pub uninterp spec fn joined(base: Seq<char>, relative: Seq<char>) -> Seq<char>;

/// The length of the longest prefix of `bytes`, of at most `limit` bytes,
/// that is valid UTF-8.
pub open spec fn longest_valid_prefix(bytes: Seq<u8>, limit: nat) -> nat
    decreases limit,
{
    if limit == 0 || valid_utf8(bytes.take(limit as int)) {
        limit
    } else {
        longest_valid_prefix(bytes, (limit - 1) as nat)
    }
}

/// `std::io::Error::kind`: the result is a function of the error.
pub assume_specification[ std::io::Error::kind ](error: &std::io::Error) -> (kind:
    std::io::ErrorKind)
    ensures
        kind == kind_of(*error),
;

/// `std::str::from_utf8`, with the error narrowed to its `valid_up_to`: the
/// text that valid UTF-8 encodes, or else the length of the longest prefix of
/// the bytes that is valid, which is the offset of the first invalid byte.
#[verifier::external_body]
pub(crate) fn decode_text(bytes: &[u8]) -> (decoded: Result<&str, usize>)
    ensures
        match decoded {
            Ok(text) => valid_utf8(bytes@) && text@ == decode_utf8(bytes@),
            Err(offset) => !valid_utf8(bytes@) && offset == longest_valid_prefix(
                bytes@,
                bytes@.len(),
            ),
        },
{
    std::str::from_utf8(bytes).map_err(|error| error.valid_up_to())
}

/// `std::path::Path::join` on paths given as text. Both parts are UTF-8, so
/// the joined path is too and reads back unchanged.
#[verifier::external_body]
pub(crate) fn join_path(base: &str, relative: &str) -> (path: String)
    ensures
        path@ == joined(base@, relative@),
{
    std::path::Path::new(base).join(relative).to_string_lossy().into_owned()
}

/// `toml::from_str` for a `toml::Value`: the outcome is a function of the text.
#[verifier::external_body]
pub(crate) fn parse_document(text: &str) -> (outcome: Result<toml::Value, toml::de::Error>)
    ensures
        match outcome {
            Ok(value) => parsed(text@) == Ok::<Node, Seq<char>>(node_of(value)),
            Err(error) => parsed(text@) == Err::<Node, Seq<char>>(diagnostic_of(error)),
        },
{
    toml::from_str::<toml::Value>(text)
}

/// The `Display` rendering of a `toml::de::Error`, through `to_string`.
#[verifier::external_body]
pub(crate) fn diagnostic_text(error: &toml::de::Error) -> (text: String)
    ensures
        text@ == diagnostic_of(*error),
{
    error.to_string()
}

/// `toml::Value::get` with a string index: the entry under `key` where the
/// value is a table that holds the key, nothing otherwise.
#[verifier::external_body]
pub(crate) fn value_get<'a>(value: &'a toml::Value, key: &str) -> (found: Option<
    &'a toml::Value,
>)
    ensures
        match found {
            Some(entry) => child(node_of(*value), key@) == Some(node_of(*entry)),
            None => child(node_of(*value), key@) is None,
        },
{
    value.get(key)
}

/// `Clone::clone` of a `toml::Value`: the copy holds the same tree.
#[verifier::external_body]
pub(crate) fn value_clone(value: &toml::Value) -> (copy: toml::Value)
    ensures
        node_of(copy) == node_of(*value),
{
    value.clone()
}

/// Tells the variants of a `toml::Value` apart and hands out the payload of
/// the scalar ones, a float as its bit pattern.
#[verifier::external_body]
pub(crate) fn value_shape(value: &toml::Value) -> (shape: Shape)
    ensures
        shape_fits(shape, node_of(*value)),
{
    match value {
        toml::Value::String(text) => Shape::Text(text.clone()),
        toml::Value::Integer(value) => Shape::Integer(*value),
        toml::Value::Float(value) => Shape::Float(value.to_bits()),
        toml::Value::Boolean(value) => Shape::Boolean(*value),
        toml::Value::Datetime(_) => Shape::Datetime,
        toml::Value::Array(_) => Shape::Array,
        toml::Value::Table(_) => Shape::Table,
    }
}

} // verus!
