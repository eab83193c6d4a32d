//! A loaded configuration document and the resolution of fields in it.

use vstd::prelude::*;
use vstd::string::StringExecFns;
use vstd::utf8::{decode_utf8, valid_utf8};
use crate::error::{read_failure, ConfigError, Failure};
use crate::outside::{
    decode_text, diagnostic_text, longest_valid_prefix, node_of, parse_document, parsed,
    value_clone, value_get,
};
use crate::path::{segments, split_path, texts};
use crate::tree::{child, descend, lemma_descend_split, lemma_descend_step, Node};

verus! {

/// A parsed configuration document. It never changes after it was loaded.
pub struct Config {
    root: toml::Value,
}

impl View for Config {
    type V = Node;

    closed spec fn view(&self) -> Node {
        node_of(self.root)
    }
}

/// What parsing makes of a text: the document, or a parse error with the
/// parser's diagnostic.
pub open spec fn parsed_text(text: Seq<char>) -> Result<Node, Failure> {
    match parsed(text) {
        Ok(document) => Ok(document),
        Err(diagnostic) => Err(Failure::ParseError(diagnostic)),
    }
}

/// What decoding and parsing make of the bytes of a file: bytes that are not
/// UTF-8 are refused with the offset of the first invalid byte, the others are
/// parsed as text.
pub open spec fn parsed_bytes(bytes: Seq<u8>) -> Result<Node, Failure> {
    if valid_utf8(bytes) {
        parsed_text(decode_utf8(bytes))
    } else {
        Err(Failure::InvalidEncoding(longest_valid_prefix(bytes, bytes.len())))
    }
}

/// What loading makes of the outcome of reading the file at `path`.
pub open spec fn loaded(path: Seq<char>, read: Result<Seq<u8>, std::io::Error>) -> Result<
    Node,
    Failure,
> {
    match read {
        Ok(bytes) => parsed_bytes(bytes),
        Err(cause) => Err(read_failure(path, cause)),
    }
}

/// What resolving a dotted name in a document yields: the node reached by
/// following the segments of the name from the root, or a failure that carries
/// the whole name.
pub open spec fn resolved(document: Node, name: Seq<char>) -> Result<Node, Failure> {
    match descend(document, segments(name)) {
        Some(node) => Ok(node),
        None => Err(Failure::MissingField(name)),
    }
}

/// The outcome of reading a file as contracts see it.
pub open spec fn read_outcome(read: Result<Vec<u8>, std::io::Error>) -> Result<
    Seq<u8>,
    std::io::Error,
> {
    match read {
        Ok(bytes) => Ok(bytes@),
        Err(cause) => Err(cause),
    }
}

/// The outcome of a load as contracts see it.
pub open spec fn config_outcome(outcome: Result<Config, ConfigError>) -> Result<Node, Failure> {
    match outcome {
        Ok(config) => Ok(config@),
        Err(error) => Err(error@),
    }
}

/// The outcome of a resolution as contracts see it.
pub open spec fn value_outcome(outcome: Result<toml::Value, ConfigError>) -> Result<
    Node,
    Failure,
> {
    match outcome {
        Ok(value) => Ok(node_of(value)),
        Err(error) => Err(error@),
    }
}

impl Config {
    /// Parses a TOML text.
    pub fn parse(text: &str) -> (outcome: Result<Config, ConfigError>)
        ensures
            config_outcome(outcome) == parsed_text(text@),
    {
        match parse_document(text) {
            Ok(root) => Ok(Config { root }),
            Err(error) => Err(ConfigError::ParseError(diagnostic_text(&error))),
        }
    }

    /// Decodes and parses the bytes of a file.
    pub fn from_bytes(bytes: &[u8]) -> (outcome: Result<Config, ConfigError>)
        ensures
            config_outcome(outcome) == parsed_bytes(bytes@),
    {
        match decode_text(bytes) {
            Ok(text) => Config::parse(text),
            Err(offset) => Err(ConfigError::InvalidEncoding(offset)),
        }
    }

    /// Loads the document from the outcome of reading the file at `path`.
    pub fn from_file(path: String, read: Result<Vec<u8>, std::io::Error>) -> (outcome: Result<
        Config,
        ConfigError,
    >)
        ensures
            config_outcome(outcome) == loaded(path@, read_outcome(read)),
    {
        match read {
            Ok(bytes) => Config::from_bytes(bytes.as_slice()),
            Err(cause) => Err(ConfigError::from_io_error(path, cause)),
        }
    }

    /// Resolves a dotted name to the value it names, as a copy.
    pub fn resolve_field(&self, name: &str) -> (outcome: Result<toml::Value, ConfigError>)
        ensures
            value_outcome(outcome) == resolved(self@, name@),
    {
        let parts = split_path(name);
        let ghost keys = segments(name@);
        let mut current: &toml::Value = &self.root;
        let mut at: usize = 0;
        assert(keys.skip(0) == keys);
        while at < parts.len()
            invariant
                at <= parts.len(),
                keys == segments(name@),
                texts(parts@) == keys,
                descend(self@, keys) == descend(node_of(*current), keys.skip(at as int)),
            decreases parts.len() - at,
        {
            proof {
                lemma_descend_step(node_of(*current), keys, at as int);
                assert(texts(parts@)[at as int] == parts@[at as int]@);
            }
            match value_get(current, parts[at].as_str()) {
                Some(next) => {
                    current = next;
                },
                None => {
                    return Err(ConfigError::MissingField(String::from_str(name)));
                },
            }
            at = at + 1;
        }
        assert(keys.skip(at as int).len() == 0);
        Ok(value_clone(current))
    }
}

/// A key that is absent where the walk has come to, at whatever depth, ends
/// the resolution with a missing field that carries the whole name.
pub proof fn lemma_absent_key_is_unresolved(
    document: Node,
    name: Seq<char>,
    depth: int,
    reached: Node,
)
    requires
        0 <= depth < segments(name).len(),
        descend(document, segments(name).take(depth)) == Some(reached),
        child(reached, segments(name)[depth]) is None,
    ensures
        resolved(document, name) == Err::<Node, Failure>(Failure::MissingField(name)),
{
    lemma_descend_split(document, segments(name), depth);
    lemma_descend_step(reached, segments(name), depth);
}

/// Resolving the same name in the same document again yields the same
/// outcome: a resolution depends on nothing but the document and the name.
pub proof fn lemma_resolution_repeats(
    config: Config,
    name: Seq<char>,
    first: Result<toml::Value, ConfigError>,
    second: Result<toml::Value, ConfigError>,
)
    requires
        value_outcome(first) == resolved(config@, name),
        value_outcome(second) == resolved(config@, name),
    ensures
        value_outcome(first) == value_outcome(second),
{
}

} // verus!
