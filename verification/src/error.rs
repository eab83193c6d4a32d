//! What can go wrong while a configuration value is resolved, and how each
//! failure reads to the user.

use vstd::prelude::*;
use vstd::string::StringExecFns;
use vstd::string::to_string_from_display_ensures;
use crate::outside::kind_of;
use crate::text::{decimal, decimal_text};

verus! {

/// A failed resolution. Every failure is final.
#[derive(Debug)]
pub enum ConfigError {
    /// Neither the override nor a declared path tells where the document is.
    MissingLocationConfig,
    /// The manifest declares a path that is not a string.
    InvalidLocationValue,
    /// There is no file at this path.
    SourceNotFound(String),
    /// The file at this path could not be read, for this cause.
    SourceReadError(String, std::io::Error),
    /// The file is not UTF-8 text; its first invalid byte is at this offset.
    InvalidEncoding(usize),
    /// The text is not a TOML document; the parser's diagnostic says why.
    ParseError(String),
    /// The document has no field of this dotted name.
    MissingField(String),
    /// The field is there but holds no boolean, string, float or integer.
    UnsupportedValueType,
}

/// A `ConfigError` as contracts see it.
pub enum Failure {
    MissingLocationConfig,
    InvalidLocationValue,
    SourceNotFound(Seq<char>),
    SourceReadError(Seq<char>, std::io::Error),
    InvalidEncoding(nat),
    ParseError(Seq<char>),
    MissingField(Seq<char>),
    UnsupportedValueType,
}

impl View for ConfigError {
    type V = Failure;

    open spec fn view(&self) -> Failure {
        match *self {
            ConfigError::MissingLocationConfig => Failure::MissingLocationConfig,
            ConfigError::InvalidLocationValue => Failure::InvalidLocationValue,
            ConfigError::SourceNotFound(path) => Failure::SourceNotFound(path@),
            ConfigError::SourceReadError(path, cause) => Failure::SourceReadError(path@, cause),
            ConfigError::InvalidEncoding(offset) => Failure::InvalidEncoding(offset as nat),
            ConfigError::ParseError(diagnostic) => Failure::ParseError(diagnostic@),
            ConfigError::MissingField(name) => Failure::MissingField(name@),
            ConfigError::UnsupportedValueType => Failure::UnsupportedValueType,
        }
    }
}

/// The failure that a failed read of `path` stands for: the file is missing
/// where the cause says so, unreadable otherwise.
pub open spec fn read_failure(path: Seq<char>, cause: std::io::Error) -> Failure {
    if kind_of(cause) == std::io::ErrorKind::NotFound {
        Failure::SourceNotFound(path)
    } else {
        Failure::SourceReadError(path, cause)
    }
}

/// The message of a failure. `cause` is the rendered cause of a failed read
/// and counts for that failure only.
pub open spec fn failure_text(failure: Failure, cause: Seq<char>) -> Seq<char> {
    match failure {
        Failure::MissingLocationConfig =>
            "Neither EMBEDDED_CONFIG_PATH nor package.metadata.embedded-config.path (in the cargo manifest) is set"@,
        Failure::InvalidLocationValue =>
            "package.metadata.embedded-config.path is not of type String"@,
        Failure::SourceNotFound(path) => "config does not exist: "@ + path,
        Failure::SourceReadError(path, _) =>
            "loading the config from "@ + path + " failed: "@ + cause,
        Failure::InvalidEncoding(offset) =>
            "loading invalid utf-8 character at byte "@ + decimal(offset)
                + " lead to a decode error"@,
        Failure::ParseError(diagnostic) =>
            "loading not valid toml: "@ + diagnostic + " lead to a decode error"@,
        Failure::MissingField(name) => "config does not contain a field matching "@ + name,
        Failure::UnsupportedValueType => "resulted in unsupported return type"@,
    }
}

/// Whether `text` is a message of `error`. The cause of a failed read is
/// rendered by its own `Display`; every other part of a message is fixed.
pub open spec fn renders(error: ConfigError, text: Seq<char>) -> bool {
    match error {
        ConfigError::SourceReadError(_, cause) => exists|rendered: String|
            to_string_from_display_ensures::<std::io::Error>(&cause, rendered) && text
                == failure_text(error@, rendered@),
        _ => text == failure_text(error@, Seq::<char>::empty()),
    }
}

impl ConfigError {
    /// Classifies a failed read of `path`.
    pub fn from_io_error(path: String, err: std::io::Error) -> (error: ConfigError)
        ensures
            error@ == read_failure(path@, err),
    {
        match err.kind() {
            std::io::ErrorKind::NotFound => ConfigError::SourceNotFound(path),
            _ => ConfigError::SourceReadError(path, err),
        }
    }

    /// The message of this error, as the user reads it. The cause of a failed
    /// read is rendered as the operating system words it.
    pub fn message(&self) -> (text: String)
        ensures
            renders(*self, text@),
    {
        match self {
            ConfigError::MissingLocationConfig => String::from_str(
                "Neither EMBEDDED_CONFIG_PATH nor package.metadata.embedded-config.path (in the cargo manifest) is set",
            ),
            ConfigError::InvalidLocationValue => String::from_str(
                "package.metadata.embedded-config.path is not of type String",
            ),
            ConfigError::SourceNotFound(path) => String::from_str(
                "config does not exist: ",
            ).concat(path.as_str()),
            ConfigError::SourceReadError(path, cause) => {
                let rendered = cause.to_string();
                String::from_str("loading the config from ").concat(path.as_str()).concat(
                    " failed: ",
                ).concat(rendered.as_str())
            },
            ConfigError::InvalidEncoding(offset) => String::from_str(
                "loading invalid utf-8 character at byte ",
            ).concat(decimal_text(*offset).as_str()).concat(" lead to a decode error"),
            ConfigError::ParseError(diagnostic) => String::from_str(
                "loading not valid toml: ",
            ).concat(diagnostic.as_str()).concat(" lead to a decode error"),
            ConfigError::MissingField(name) => String::from_str(
                "config does not contain a field matching ",
            ).concat(name.as_str()),
            ConfigError::UnsupportedValueType => String::from_str(
                "resulted in unsupported return type",
            ),
        }
    }
}

} // verus!
