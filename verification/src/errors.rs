//! The locator's error model.
//!
//! Every failure carries the data needed for a descriptive message: the
//! path that was attempted, the base directory it was formed from, or the
//! environment value that was missing.

use vstd::prelude::*;
use vstd::string::StringExecFns;

verus! {

/// The kind of a `LocateError`, without its payload.
#[derive(Clone, Copy, Debug, PartialEq, Eq, Structural)]
pub enum LocateErrorKind {
    MissingEnvironmentValue,
    SymlinkResolutionFailure,
    FileNotFound,
    RuntimeBinaryNotFound,
}

/// Why resolution of the server entry point failed.
#[derive(Debug)]
pub enum LocateError {
    /// A required environment value (the home directory) was not set.
    MissingEnvironmentValue { variable: String },
    /// The installed-extension path is a symbolic link that could not be
    /// dereferenced (for example, its target does not exist).
    SymlinkResolutionFailure { link_path: String, detail: String },
    /// The resolved entry point does not name an existing file.
    FileNotFound { path: String, base: String },
    /// The host could not supply the runtime binary that would run the server.
    RuntimeBinaryNotFound { detail: String },
}

impl LocateError {
    /// The kind of this error.
    pub open spec fn kind_spec(&self) -> LocateErrorKind {
        match self {
            LocateError::MissingEnvironmentValue { .. } => LocateErrorKind::MissingEnvironmentValue,
            LocateError::SymlinkResolutionFailure { .. } => LocateErrorKind::SymlinkResolutionFailure,
            LocateError::FileNotFound { .. } => LocateErrorKind::FileNotFound,
            LocateError::RuntimeBinaryNotFound { .. } => LocateErrorKind::RuntimeBinaryNotFound,
        }
    }

    pub fn kind(&self) -> (kind: LocateErrorKind)
        ensures
            kind == self.kind_spec(),
    {
        match self {
            LocateError::MissingEnvironmentValue { .. } => LocateErrorKind::MissingEnvironmentValue,
            LocateError::SymlinkResolutionFailure { .. } => LocateErrorKind::SymlinkResolutionFailure,
            LocateError::FileNotFound { .. } => LocateErrorKind::FileNotFound,
            LocateError::RuntimeBinaryNotFound { .. } => LocateErrorKind::RuntimeBinaryNotFound,
        }
    }

    /// The descriptive message for this error, character for character.
    pub open spec fn message_spec(&self) -> Seq<char> {
        match self {
            LocateError::MissingEnvironmentValue { variable } => "environment value "@ + variable@
                + " is not set"@,
            LocateError::SymlinkResolutionFailure { link_path, detail } => (
            "failed to resolve symbolic link "@ + link_path@ + ": "@) + detail@,
            LocateError::FileNotFound { path, base } => ("server file not found at "@ + path@
                + "; base directory: "@) + base@,
            LocateError::RuntimeBinaryNotFound { detail } => "runtime binary not found: "@
                + detail@,
        }
    }

    /// Renders the descriptive message that the host surfaces to the user.
    pub fn message(&self) -> (message: String)
        ensures
            message@ == self.message_spec(),
    {
        match self {
            LocateError::MissingEnvironmentValue { variable } => {
                let mut out = String::from_str("environment value ");
                out.append(variable.as_str());
                out.append(" is not set");
                out
            },
            LocateError::SymlinkResolutionFailure { link_path, detail } => {
                let mut out = String::from_str("failed to resolve symbolic link ");
                out.append(link_path.as_str());
                out.append(": ");
                out.append(detail.as_str());
                out
            },
            LocateError::FileNotFound { path, base } => {
                let mut out = String::from_str("server file not found at ");
                out.append(path.as_str());
                out.append("; base directory: ");
                out.append(base.as_str());
                out
            },
            LocateError::RuntimeBinaryNotFound { detail } => {
                let mut out = String::from_str("runtime binary not found: ");
                out.append(detail.as_str());
                out
            },
        }
    }
}

} // verus!
