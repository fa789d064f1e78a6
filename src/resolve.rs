//! End-to-end resolution: from a located settings file and what reading it
//! gave to a configuration or a typed failure.
use vstd::prelude::*;

use crate::document::{parse_document, settings_from_document, settings_of, toml_document, TomlValue};
use crate::options::{DjangoFmtOptions, Settings};

verus! {

/// Why a configuration could not be resolved.
#[derive(PartialEq, Eq, Debug, Clone)]
pub enum ConfigError {
    /// No ancestor of the starting path holds a settings file.
    FileNotFound,
    /// The settings file was found but could not be read.
    IoError { path: String, cause: String },
    /// The settings file is not valid TOML, or a recognised field holds a
    /// value outside its domain.
    ParseError { path: String, cause: String },
}

/// The mathematical value of a [`ConfigError`].
pub ghost enum Failure {
    FileNotFound,
    IoError { path: Seq<char>, cause: Seq<char> },
    ParseError { path: Seq<char>, cause: Seq<char> },
}

impl View for ConfigError {
    type V = Failure;

    open spec fn view(&self) -> Failure {
        match self {
            ConfigError::FileNotFound => Failure::FileNotFound,
            ConfigError::IoError { path, cause } => Failure::IoError { path: path@, cause: cause@ },
            ConfigError::ParseError { path, cause } => Failure::ParseError {
                path: path@,
                cause: cause@,
            },
        }
    }
}

/// The human-readable message of a failure.
pub open spec fn failure_message(f: Failure) -> Seq<char> {
    match f {
        Failure::FileNotFound => "no pyproject.toml found in any ancestor directory"@,
        Failure::IoError { path, cause } => "failed to read "@ + path + ": "@ + cause,
        Failure::ParseError { path, cause } => "failed to parse "@ + path + ": "@ + cause,
    }
}

impl ConfigError {
    /// A message for the user, naming the file where there is one.
    pub fn message(&self) -> (r: String)
        ensures
            r@ == failure_message(self@),
    {
        match self {
            ConfigError::FileNotFound => String::from_str(
                "no pyproject.toml found in any ancestor directory",
            ),
            ConfigError::IoError { path, cause } => String::from_str("failed to read ").concat(
                path.as_str(),
            ).concat(": ").concat(cause.as_str()),
            ConfigError::ParseError { path, cause } => String::from_str(
                "failed to parse ",
            ).concat(path.as_str()).concat(": ").concat(cause.as_str()),
        }
    }
}

/// The mathematical value of a resolution result.
pub open spec fn outcome(r: Result<DjangoFmtOptions, ConfigError>) -> Result<Settings, Failure> {
    match r {
        Ok(o) => Ok(o@),
        Err(e) => Err(e@),
    }
}

/// What the settings file at `path` resolves to, given what parsing its text
/// gave: every rejection is a `ParseError` that names the file.
pub open spec fn document_outcome(path: Seq<char>, doc: Result<TomlValue, Seq<char>>) -> Result<
    Settings,
    Failure,
> {
    match doc {
        Err(cause) => Err(Failure::ParseError { path, cause }),
        Ok(d) => match settings_of(d) {
            Ok(s) => Ok(s),
            Err(cause) => Err(Failure::ParseError { path, cause }),
        },
    }
}

/// What resolution gives for the settings file found, if any, and what
/// reading it gave.
pub open spec fn resolution(located: Option<(Seq<char>, Result<Seq<char>, Seq<char>>)>) -> Result<
    Settings,
    Failure,
> {
    match located {
        None => Err(Failure::FileNotFound),
        Some((path, Err(cause))) => Err(Failure::IoError { path, cause }),
        Some((path, Ok(text))) => document_outcome(path, toml_document(text)),
    }
}

/// The view of a located file and what reading it gave.
pub open spec fn located_view(located: Option<(String, Result<String, String>)>) -> Option<
    (Seq<char>, Result<Seq<char>, Seq<char>>),
> {
    match located {
        None => None,
        Some((path, Err(cause))) => Some((path@, Err(cause@))),
        Some((path, Ok(text))) => Some((path@, Ok(text@))),
    }
}

/// Resolves the configuration of an already parsed settings file.
pub fn options_from_document(path: &str, doc: &TomlValue) -> (r: Result<
    DjangoFmtOptions,
    ConfigError,
>)
    ensures
        outcome(r) == document_outcome(path@, Ok(*doc)),
{
    match settings_from_document(doc) {
        Ok(o) => Ok(o),
        Err(cause) => Err(ConfigError::ParseError { path: String::from_str(path), cause }),
    }
}

/// Loads the options from the text of the settings file at `path`.
pub fn load_options_from_pyproject_toml(path: &str, content: &str) -> (r: Result<
    DjangoFmtOptions,
    ConfigError,
>)
    ensures
        outcome(r) == document_outcome(path@, toml_document(content@)),
{
    match parse_document(content) {
        Ok(doc) => options_from_document(path, &doc),
        Err(cause) => Err(ConfigError::ParseError { path: String::from_str(path), cause }),
    }
}

/// Resolves the configuration from the settings file that was located
/// (`None` where none was) and the result of reading it: its text, or the
/// cause of the read failure.
pub fn resolve_settings(located: Option<(String, Result<String, String>)>) -> (r: Result<
    DjangoFmtOptions,
    ConfigError,
>)
    ensures
        outcome(r) == resolution(located_view(located)),
{
    match located {
        None => Err(ConfigError::FileNotFound),
        Some((path, Err(cause))) => Err(ConfigError::IoError { path, cause }),
        Some((path, Ok(text))) => load_options_from_pyproject_toml(path.as_str(), text.as_str()),
    }
}

} // verus!
