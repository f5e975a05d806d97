//! Locates a bundled language-server entry point under one of several
//! discovery strategies and assembles the command line that launches it.
//!
//! The locator itself is pure: the host adapter gathers filesystem
//! observations (does a path exist, where does a symbolic link point) and
//! hands them in as plain values, so every resolution decision is made and
//! checked here.

pub mod command;
pub mod errors;
pub mod laws;
pub mod locator;
pub mod paths;
