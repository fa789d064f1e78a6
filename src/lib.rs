//! Resolution of the formatter's settings: locating the nearest
//! `pyproject.toml`, reading its `tool.djangofmt` table and merging the
//! fields found there over the built-in defaults.

pub mod document;
pub mod laws;
pub mod locate;
pub mod options;
pub mod profile;
pub mod resolve;

pub use document::{parse_document, settings_from_document, TomlValue};
pub use locate::{find_pyproject_toml, nearest_settings, settings_candidates};
pub use options::{DjangoFmtOptions, RawSettings};
pub use profile::Profile;
pub use resolve::{
    load_options_from_pyproject_toml, options_from_document, resolve_settings, ConfigError,
};
