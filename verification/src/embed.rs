//! The two requests that a caller makes: a value that must be there, and a
//! value that may be absent. Each takes the outcome of the load and the dotted
//! name, and yields the scalar or a diagnostic to show at the request's site.

use vstd::prelude::*;
use vstd::string::StringExecFns;
use crate::config::{lemma_absent_key_is_unresolved, resolved, Config};
use crate::path::segments;
use crate::error::{failure_text, renders, ConfigError, Failure};
use crate::scalar::{coerce, coerced, is_scalar, scalar_outcome, Scalar};
use crate::tree::{child, descend, Node};

verus! {

/// The part of a request that a diagnostic points at.
#[derive(Debug, Clone, Copy, PartialEq, Eq, Structural)]
pub enum Anchor {
    /// The request as a whole: the document could not be loaded.
    CallSite,
    /// The field name in the request: the document does not yield the field.
    FieldName,
}

/// A failure as the user sees it: a message, and where to show it.
#[derive(Debug, Clone, PartialEq, Eq)]
pub struct Diagnostic {
    pub anchor: Anchor,
    pub message: String,
}

/// What a document yields for a dotted name: the scalar that the name leads
/// to, unchanged, or the reason why there is none.
pub open spec fn embedded(document: Node, name: Seq<char>) -> Result<Node, Failure> {
    match resolved(document, name) {
        Ok(node) => coerced(node),
        Err(failure) => Err(failure),
    }
}

/// The words put before the message of a failed load.
pub const LOAD_PREFIX: &'static str = "loading config: ";

/// The message of a failure to find or load the document. A failure to find
/// it stands by itself; a failure to load it is introduced as one.
pub open spec fn load_text(failure: Failure, message: Seq<char>) -> Seq<char> {
    match failure {
        Failure::MissingLocationConfig | Failure::InvalidLocationValue => message,
        _ => LOAD_PREFIX@ + message,
    }
}

/// Whether `diagnostic` reports that the load failed with `error`.
pub open spec fn reports_load(diagnostic: Diagnostic, error: ConfigError) -> bool {
    &&& diagnostic.anchor == Anchor::CallSite
    &&& exists|message: Seq<char>|
        renders(error, message) && diagnostic.message@ == load_text(error@, message)
}

/// Whether `diagnostic` reports that the document does not yield the field.
pub open spec fn reports_field(diagnostic: Diagnostic, failure: Failure) -> bool {
    &&& diagnostic.anchor == Anchor::FieldName
    &&& diagnostic.message@ == failure_text(failure, Seq::<char>::empty())
}

impl Config {
    /// Resolves a dotted name and coerces what it names to a scalar.
    pub fn resolve_scalar(&self, name: &str) -> (outcome: Result<Scalar, ConfigError>)
        ensures
            scalar_outcome(outcome) == embedded(self@, name@),
    {
        match self.resolve_field(name) {
            Ok(value) => coerce(&value),
            Err(error) => Err(error),
        }
    }
}

/// Reports a failure to find or load the document, at the request's site.
pub fn report_load(error: &ConfigError) -> (diagnostic: Diagnostic)
    ensures
        reports_load(diagnostic, *error),
{
    let message = error.message();
    let message = match error {
        ConfigError::MissingLocationConfig | ConfigError::InvalidLocationValue => message,
        _ => String::from_str(LOAD_PREFIX).concat(message.as_str()),
    };
    Diagnostic { anchor: Anchor::CallSite, message }
}

/// Reports a failure of the resolution, at the field's name.
pub fn report_field(error: &ConfigError) -> (diagnostic: Diagnostic)
    ensures
        diagnostic.anchor == Anchor::FieldName,
        renders(*error, diagnostic.message@),
{
    Diagnostic { anchor: Anchor::FieldName, message: error.message() }
}

/// The value of a field that must be there. Any failure, of the load or of
/// the resolution, is a diagnostic.
pub fn embed_config_value(loaded: Result<Config, ConfigError>, name: &str) -> (outcome: Result<
    Scalar,
    Diagnostic,
>)
    ensures
        match loaded {
            Ok(config) => match embedded(config@, name@) {
                Ok(node) => outcome matches Ok(scalar) && scalar@ == node,
                Err(failure) => outcome matches Err(diagnostic) && reports_field(
                    diagnostic,
                    failure,
                ),
            },
            Err(error) => outcome matches Err(diagnostic) && reports_load(diagnostic, error),
        },
{
    match loaded {
        Ok(config) => match config.resolve_scalar(name) {
            Ok(scalar) => Ok(scalar),
            Err(error) => Err(report_field(&error)),
        },
        Err(error) => Err(report_load(&error)),
    }
}

/// The value of a field that may be absent. A field that the document does
/// not have is no failure: it yields nothing. Every other failure is a
/// diagnostic, as for a field that must be there.
pub fn embed_config_value_opt(loaded: Result<Config, ConfigError>, name: &str) -> (outcome:
    Result<Option<Scalar>, Diagnostic>)
    ensures
        match loaded {
            Ok(config) => match embedded(config@, name@) {
                Ok(node) => outcome matches Ok(Some(scalar)) && scalar@ == node,
                Err(Failure::MissingField(_)) => outcome == Ok::<Option<Scalar>, Diagnostic>(None),
                Err(failure) => outcome matches Err(diagnostic) && reports_field(
                    diagnostic,
                    failure,
                ),
            },
            Err(error) => outcome matches Err(diagnostic) && reports_load(diagnostic, error),
        },
{
    match loaded {
        Ok(config) => match config.resolve_scalar(name) {
            Ok(scalar) => Ok(Some(scalar)),
            Err(ConfigError::MissingField(_)) => Ok(None),
            Err(error) => Err(report_field(&error)),
        },
        Err(error) => Err(report_load(&error)),
    }
}

/// A dotted name that leads to a boolean, a string, a float or an integer
/// yields exactly that leaf: the same type and the same content.
pub proof fn lemma_scalar_leaf_is_yielded(document: Node, name: Seq<char>, leaf: Node)
    requires
        descend(document, segments(name)) == Some(leaf),
        is_scalar(leaf),
    ensures
        embedded(document, name) == Ok::<Node, Failure>(leaf),
{
}

/// A dotted name that leads to anything but a scalar, such as a table or an
/// array, is refused as unsupported; the node is never turned into text.
pub proof fn lemma_composite_is_unsupported(document: Node, name: Seq<char>, node: Node)
    requires
        descend(document, segments(name)) == Some(node),
        !is_scalar(node),
    ensures
        node is Table || node is Array || node is Datetime,
        embedded(document, name) == Err::<Node, Failure>(Failure::UnsupportedValueType),
{
}

/// A dotted name with a key that is absent, at whatever depth, yields no
/// value: the failure is a missing field and carries the whole name.
pub proof fn lemma_absent_key_is_missing_field(
    document: Node,
    name: Seq<char>,
    depth: int,
    reached: Node,
)
    requires
        0 <= depth < segments(name).len(),
        descend(document, segments(name).take(depth)) == Some(reached),
        child(reached, segments(name)[depth]) is None,
    ensures
        embedded(document, name) == Err::<Node, Failure>(Failure::MissingField(name)),
{
    lemma_absent_key_is_unresolved(document, name, depth, reached);
}

} // verus!
