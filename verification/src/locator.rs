//! The server locator: resolves the absolute path of the server entry
//! point under one of three discovery strategies, or fails with a
//! diagnosable error.
//!
//! The locator makes no filesystem calls of its own. The host adapter
//! observes the filesystem (whether the install path is a symbolic link
//! and where it points, whether the candidate file exists) and supplies
//! those observations as plain values in the `ResolutionContext`, so the
//! decision taken on every observation is verified here.

use crate::errors::LocateError;
use crate::paths::{
    home_variable, install_directory, install_subpath, joined, server_entry_under, server_suffix,
};
use vstd::prelude::*;
use vstd::string::StringExecFns;

verus! {

/// What the host found when it examined the installed-extension path for a
/// symbolic link.
#[derive(Debug)]
pub enum LinkProbe {
    /// The path is not a symbolic link; it is used as the base directory
    /// as it stands.
    NotALink,
    /// The path is a symbolic link that dereferences to this directory.
    Target { path: String },
    /// The path is a symbolic link that could not be dereferenced; the
    /// detail describes the underlying failure.
    Unreadable { detail: String },
}

/// One server-start request's inputs: the discovery strategy together with
/// the host-supplied data that strategy reads.
#[derive(Debug)]
pub enum ResolutionContext {
    /// Concatenate the project root with the fixed suffix; no existence
    /// check is performed.
    RootRelative { root: String },
    /// Form the installed-extension path beneath the home directory taken
    /// from the environment, dereference it if it is a symbolic link, and
    /// verify that the entry point exists under the resulting directory.
    InstallDirectory { home: Option<String>, link: LinkProbe, server_file_exists: bool },
    /// Append the fixed suffix to the process's current working directory
    /// and verify that the entry point exists.
    WorkingDirectory { cwd: String, server_file_exists: bool },
}

/// The outcome that `locate` owes for a context, as a mathematical value.
pub enum Outcome {
    /// Resolution succeeded with this absolute path.
    Resolved(Seq<char>),
    /// The named environment value was not set.
    NoEnvironmentValue(Seq<char>),
    /// The installed-extension path is a symbolic link that could not be
    /// dereferenced.
    BrokenLink { link_path: Seq<char>, detail: Seq<char> },
    /// The candidate entry point does not exist.
    Absent { path: Seq<char>, base: Seq<char> },
}

/// The outcome for a base directory whose candidate entry point either
/// exists or does not.
pub open spec fn resolved_or_absent(base: Seq<char>, file_exists: bool) -> Outcome {
    if file_exists {
        Outcome::Resolved(joined(base, server_suffix()))
    } else {
        Outcome::Absent { path: joined(base, server_suffix()), base }
    }
}

/// The outcome `locate` owes for each context.
pub open spec fn locate_outcome(ctx: ResolutionContext) -> Outcome {
    match ctx {
        ResolutionContext::RootRelative { root } => Outcome::Resolved(
            joined(root@, server_suffix()),
        ),
        ResolutionContext::InstallDirectory { home, link, server_file_exists } => match home {
            Option::None => Outcome::NoEnvironmentValue(home_variable()),
            Option::Some(h) => match link {
                LinkProbe::Unreadable { detail } => Outcome::BrokenLink {
                    link_path: joined(h@, install_subpath()),
                    detail: detail@,
                },
                LinkProbe::NotALink => resolved_or_absent(
                    joined(h@, install_subpath()),
                    server_file_exists,
                ),
                LinkProbe::Target { path } => resolved_or_absent(path@, server_file_exists),
            },
        },
        ResolutionContext::WorkingDirectory { cwd, server_file_exists } => resolved_or_absent(
            cwd@,
            server_file_exists,
        ),
    }
}

/// Whether an executable result realises an outcome: the same variant,
/// with every payload equal character for character.
pub open spec fn outcome_matches(r: Result<String, LocateError>, outcome: Outcome) -> bool {
    match outcome {
        Outcome::Resolved(p) => r matches Ok(found) && found@ == p,
        Outcome::NoEnvironmentValue(v) => r matches Err(LocateError::MissingEnvironmentValue {
            variable,
        }) && variable@ == v,
        Outcome::BrokenLink { link_path, detail } => r matches Err(
            LocateError::SymlinkResolutionFailure { link_path: lp, detail: d },
        ) && lp@ == link_path && d@ == detail,
        Outcome::Absent { path, base } => r matches Err(LocateError::FileNotFound {
            path: p,
            base: b,
        }) && p@ == path && b@ == base,
    }
}

/// Resolves the candidate entry point under `base`, which either exists or
/// yields a `FileNotFound` error naming both the candidate and the base.
fn conclude(base: &str, file_exists: bool) -> (r: Result<String, LocateError>)
    ensures
        outcome_matches(r, resolved_or_absent(base@, file_exists)),
{
    let candidate = server_entry_under(base);
    if file_exists {
        Ok(candidate)
    } else {
        Err(LocateError::FileNotFound { path: candidate, base: String::from_str(base) })
    }
}

/// Resolves the absolute path of the server entry point for one request,
/// or fails with the error the context's strategy owes.
pub fn locate(ctx: &ResolutionContext) -> (r: Result<String, LocateError>)
    ensures
        outcome_matches(r, locate_outcome(*ctx)),
{
    match ctx {
        ResolutionContext::RootRelative { root } => Ok(server_entry_under(root.as_str())),
        ResolutionContext::InstallDirectory { home, link, server_file_exists } => match home {
            Option::None => Err(
                LocateError::MissingEnvironmentValue { variable: String::from_str("HOME") },
            ),
            Option::Some(h) => match link {
                LinkProbe::Unreadable { detail } => Err(
                    LocateError::SymlinkResolutionFailure {
                        link_path: install_directory(h.as_str()),
                        detail: String::from_str(detail.as_str()),
                    },
                ),
                LinkProbe::NotALink => {
                    let install = install_directory(h.as_str());
                    conclude(install.as_str(), *server_file_exists)
                },
                LinkProbe::Target { path } => conclude(path.as_str(), *server_file_exists),
            },
        },
        ResolutionContext::WorkingDirectory { cwd, server_file_exists } => conclude(
            cwd.as_str(),
            *server_file_exists,
        ),
    }
}

/// Per-instance discovery state: whether a resolution has already been
/// confirmed during this instance's lifetime, used only to skip a
/// redundant installation-status notification on later requests.
pub struct DiscoveryState {
    pub previously_found: bool,
}

impl DiscoveryState {
    /// A fresh instance has confirmed nothing yet.
    pub fn new() -> (state: DiscoveryState)
        ensures
            !state.previously_found,
    {
        DiscoveryState { previously_found: false }
    }

    /// Records a confirmed successful resolution.
    pub fn record_found(&mut self)
        ensures
            final(self).previously_found,
    {
        self.previously_found = true;
    }

    /// Whether an installation-status notification is still owed: only
    /// before the first confirmed resolution.
    pub fn needs_notification(&self) -> (needed: bool)
        ensures
            needed == !self.previously_found,
    {
        !self.previously_found
    }
}

} // verus!
