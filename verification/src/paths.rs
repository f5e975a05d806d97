//! Path constants and path concatenation.
//!
//! Every path the locator builds is a base directory joined with a fixed
//! relative suffix; the suffix is an opaque constant, never inferred from
//! file contents.

use vstd::prelude::*;
use vstd::string::StringExecFns;

verus! {

/// The path separator inserted between a base directory and a suffix.
pub open spec fn sep() -> Seq<char> {
    "/"@
}

/// A base directory joined with a relative path: `base`, a separator, `rel`.
pub open spec fn joined(base: Seq<char>, rel: Seq<char>) -> Seq<char> {
    base + sep() + rel
}

/// The fixed relative path of the server entry point beneath a base directory.
pub open spec fn server_suffix() -> Seq<char> {
    "server/dist/index.js"@
}

/// The fixed installed-extension path beneath a home directory.
pub open spec fn install_subpath() -> Seq<char> {
    ".local/share/zed/extensions/installed/sftp"@
}

/// The name of the environment value that holds the home directory.
pub open spec fn home_variable() -> Seq<char> {
    "HOME"@
}

/// The fixed identifier under which the host keys this server's settings.
pub open spec fn server_id_spec() -> Seq<char> {
    "sftp-server"@
}

/// Joins a base directory (given without a trailing separator) and a
/// relative path.
pub fn join_path(base: &str, rel: &str) -> (path: String)
    ensures
        path@ == joined(base@, rel@),
{
    let mut out = String::from_str(base);
    out.append("/");
    out.append(rel);
    out
}

/// The fixed relative suffix as an executable value.
pub fn server_suffix_path() -> (suffix: String)
    ensures
        suffix@ == server_suffix(),
{
    String::from_str("server/dist/index.js")
}

/// The server entry point beneath a base directory.
pub fn server_entry_under(base: &str) -> (path: String)
    ensures
        path@ == joined(base@, server_suffix()),
{
    join_path(base, "server/dist/index.js")
}

/// The installed-extension directory beneath a home directory.
pub fn install_directory(home: &str) -> (path: String)
    ensures
        path@ == joined(home@, install_subpath()),
{
    join_path(home, ".local/share/zed/extensions/installed/sftp")
}

/// The fixed server identifier as an executable value.
pub fn server_id() -> (id: String)
    ensures
        id@ == server_id_spec(),
{
    String::from_str("sftp-server")
}

} // verus!
