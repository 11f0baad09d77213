//! Errors that the user gets to see.

use vstd::prelude::*;

verus! {

/// An error caused by the user's input or environment.
#[derive(Debug, PartialEq, Eq)]
pub enum UserError {
    /// a version pattern did not match the given text
    RegexDoesntMatch,
    /// no application with the given name exists
    UnknownApp(String),
    /// the hosting service provided no versions for the given application
    NoVersionsFound { app: String },
    /// the version requirement in a project file is not a valid semver range
    CannotParseSemverRange { expression: String, reason: String },
}

} // verus!
