//! Layered configuration resolution for a command-line application.
//!
//! The crate discovers the application's directories, merges compiled-in
//! defaults, an optional TOML file and environment variables under a fixed
//! precedence, and produces the generated example configuration and the
//! check that committed copies of generated files are current.

pub mod cli;
pub mod config;
pub mod document;
pub mod env;
pub mod error;
pub mod generate;
pub mod loader;
pub mod paths;
pub mod schema;
pub mod text;

pub use cli::{ColorMode, ColorOption, CommonOpts, InitAction};
pub use config::{AppConfig, ConfigLayer, LogLevel, LoggingConfig, PathsConfig, RuntimeConfig, DEFAULT_TIMEOUT};
pub use document::{config_table, file_layer, render_config, TomlEntry};
pub use env::{env_layer, parse_bool, Environment};
pub use error::CoreError;
pub use generate::{
    default_config_header, default_config_text, generate_example_config, schema_description, schema_id,
    schema_title, validate_against_examples, SCHEMA_BASE_URL, SCHEMA_FILENAME,
};
pub use loader::Loaded;
pub use paths::{expand_path, join_path, path_has_parent, AppPaths, CONFIG_FILENAME};
pub use schema::generate_schema;
pub use text::{env_prefix, parse_positive, str_eq, APP_NAME};
