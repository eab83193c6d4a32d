//! Resolves a dotted field name against a TOML configuration document and
//! yields the value found there as a typed scalar.
//!
//! The document is found through the environment: an override variable names
//! it directly, or else the manifest of the project declares its path. The
//! library decides and computes; reading the environment and the files is
//! left to the caller, whom the [`loader`] tells what to read next.

pub mod config;
pub mod embed;
pub mod error;
pub mod loader;
pub mod outside;
pub mod path;
pub mod scalar;
pub mod text;
pub mod tree;

pub use config::Config;
pub use embed::{embed_config_value, embed_config_value_opt, Anchor, Diagnostic};
pub use error::ConfigError;
pub use loader::{Event, Request, Stage, Step, Variable};
pub use scalar::Scalar;
