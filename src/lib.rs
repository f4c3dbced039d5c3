//! Declarative application configuration: a record of textual knobs is
//! described by annotations, bound from command-line arguments, environment
//! variables and defaults (in that order of precedence), and summarised by a
//! redacting printer.

use vstd::prelude::*;

pub mod annotation;
pub mod casing;
pub mod descriptor;
pub mod laws;
pub mod printer;
pub mod resolve;
pub mod text;

pub use annotation::{validate, FieldDecl, RecordDecl, Shape, Tag, ValidationError, Violation};
pub use descriptor::{FieldDescriptor, RecordDescriptor};
pub use printer::{version_key, BuildInfo, BuildKind, MASK};
pub use resolve::{BindError, Config};

verus! {

/// A record of textual configuration knobs that binds itself from the process's
/// arguments, environment and defaults, and prints a redacted summary of itself.
///
/// An implementation describes the record with a [`RecordDecl`], checks it with
/// [`validate`], binds it with [`Config::bind`] and prints the lines of
/// [`Config::show`].
pub trait Confu: Sized {
    /// The bound record. Optional fields that no source provides are empty.
    /// Aborts where a required field is provided by no source.
    fn confu() -> Self;

    /// Writes the build metadata, then one line per field that is not hidden,
    /// to standard output.
    fn show(&self);
}

} // verus!
