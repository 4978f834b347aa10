//! The errors of configuration resolution.

use vstd::prelude::*;

verus! {

/// Why resolving directories or configuration failed.
#[derive(Clone, Debug, PartialEq, Eq)]
pub enum CoreError {
    /// No base directory could be determined; names which one.
    DirectoryResolution(String),
    /// The resolved config file path has no parent directory; holds it.
    InvalidConfigPath(String),
    /// The config file is not well-formed TOML; holds the parser's message.
    Parse(String),
    /// A value does not have its field's declared type; names the field.
    TypeCoercion(String),
    /// A path could not be expanded (it names an unset variable); holds it.
    PathExpansion(String),
    /// A value could not be written as TOML; holds the serializer's message.
    Serialization(String),
    /// Reading, writing or creating a file or directory failed.
    Io(String),
    /// Generated files differ from their reference copies; one line each.
    Consistency(Vec<String>),
}


/// Why an operation failed, as the contracts state it.
pub enum Failure {
    /// No base directory for the named kind could be determined.
    Unresolvable(Seq<char>),
    /// The config file path has no non-empty parent.
    InvalidPath(Seq<char>),
    /// The config file is not well-formed TOML.
    Parse,
    /// The named field holds a value of the wrong type.
    Coercion(Seq<char>),
    /// The path names a variable that is not set.
    Expansion(Seq<char>),
    /// A value could not be written as TOML.
    Serialization,
}

/// Whether `e` is the error that reports `f`.
pub open spec fn describes(e: CoreError, f: Failure) -> bool {
    match (e, f) {
        (CoreError::DirectoryResolution(s), Failure::Unresolvable(t)) => s@ == t,
        (CoreError::InvalidConfigPath(s), Failure::InvalidPath(t)) => s@ == t,
        (CoreError::Parse(_), Failure::Parse) => true,
        (CoreError::TypeCoercion(s), Failure::Coercion(t)) => s@ == t,
        (CoreError::PathExpansion(s), Failure::Expansion(t)) => s@ == t,
        (CoreError::Serialization(_), Failure::Serialization) => true,
        _ => false,
    }
}

/// Whether an executable result is the outcome `s` describes.
pub open spec fn outcome<T: View>(r: Result<T, CoreError>, s: Result<T::V, Failure>) -> bool {
    match (r, s) {
        (Ok(x), Ok(v)) => x@ == v,
        (Err(e), Err(f)) => describes(e, f),
        _ => false,
    }
}

} // verus!
