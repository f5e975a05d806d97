//! Properties that relate the locator's functions across calls and
//! contexts, each proved over the same outcome model that `locate`'s
//! contract uses.

use crate::errors::LocateError;
use crate::locator::{locate_outcome, LinkProbe, Outcome, ResolutionContext};
use crate::paths::{home_variable, install_subpath, joined, server_suffix};
use vstd::prelude::*;

verus! {

/// Whether `needle` occurs contiguously inside `hay`.
pub open spec fn contains_substring(hay: Seq<char>, needle: Seq<char>) -> bool {
    exists|i: int|
        0 <= i && i + needle.len() <= hay.len() && #[trigger] hay.subrange(i, i + needle.len())
            == needle
}

/// Root-relative resolution returns exactly the root followed by the
/// fixed suffix, for every root.
pub proof fn lemma_root_relative_resolution(root: String)
    ensures
        locate_outcome((ResolutionContext::RootRelative { root })) == Outcome::Resolved(
            root@ + "/server/dist/index.js"@,
        ),
{
    reveal_strlit("/");
    reveal_strlit("server/dist/index.js");
    reveal_strlit("/server/dist/index.js");
    assert(joined(root@, server_suffix()) =~= root@ + "/server/dist/index.js"@);
}

/// When the home-directory environment value is absent, install-directory
/// resolution fails with the missing-value error whatever the filesystem
/// looks like: the outcome is the same for any two sets of filesystem
/// observations.
pub proof fn lemma_missing_home_ignores_filesystem(
    link1: LinkProbe,
    file_exists1: bool,
    link2: LinkProbe,
    file_exists2: bool,
)
    ensures
        locate_outcome(
            (ResolutionContext::InstallDirectory {
                home: None,
                link: link1,
                server_file_exists: file_exists1,
            }),
        ) == Outcome::NoEnvironmentValue(home_variable()),
        locate_outcome(
            (ResolutionContext::InstallDirectory {
                home: None,
                link: link1,
                server_file_exists: file_exists1,
            }),
        ) == locate_outcome(
            (ResolutionContext::InstallDirectory {
                home: None,
                link: link2,
                server_file_exists: file_exists2,
            }),
        ),
{
}

/// A symbolic link pointing to a directory that contains the entry point
/// resolves to the entry point beneath the link's target.
pub proof fn lemma_symlink_target_resolution(home: String, target: String)
    ensures
        locate_outcome(
            (ResolutionContext::InstallDirectory {
                home: Some(home),
                link: (LinkProbe::Target { path: target }),
                server_file_exists: true,
            }),
        ) == Outcome::Resolved(joined(target@, server_suffix())),
{
}

/// A symbolic link that cannot be dereferenced yields the broken-link
/// outcome at the install path, never the file-not-found outcome.
pub proof fn lemma_dangling_symlink_distinguished(home: String, detail: String, file_exists: bool)
    ensures
        locate_outcome(
            (ResolutionContext::InstallDirectory {
                home: Some(home),
                link: (LinkProbe::Unreadable { detail }),
                server_file_exists: file_exists,
            }),
        ) == (Outcome::BrokenLink { link_path: joined(home@, install_subpath()), detail: detail@ }),
        !(locate_outcome(
            (ResolutionContext::InstallDirectory {
                home: Some(home),
                link: (LinkProbe::Unreadable { detail }),
                server_file_exists: file_exists,
            }),
        ) matches Outcome::Absent { .. }),
{
}

/// Joining two bases with the same relative path gives the same result
/// exactly when the bases are the same.
pub proof fn lemma_joined_base_injective(a: Seq<char>, b: Seq<char>, rel: Seq<char>)
    ensures
        (joined(a, rel) == joined(b, rel)) <==> a == b,
{
    if joined(a, rel) == joined(b, rel) {
        assert(joined(a, rel).len() == a.len() + 1 + rel.len()) by {
            reveal_strlit("/");
        }
        assert(joined(b, rel).len() == b.len() + 1 + rel.len()) by {
            reveal_strlit("/");
        }
        assert forall|i: int| 0 <= i < a.len() implies a[i] == b[i] by {
            assert(joined(a, rel)[i] == a[i]);
            assert(joined(b, rel)[i] == b[i]);
        }
        assert(a =~= b);
    }
}

/// Working-directory resolution follows the working directory: two
/// requests resolve to the same path exactly when their working
/// directories agree.
pub proof fn lemma_working_directory_determines_path(cwd1: String, cwd2: String)
    ensures
        (locate_outcome((ResolutionContext::WorkingDirectory { cwd: cwd1, server_file_exists: true }))
            == locate_outcome(
            (ResolutionContext::WorkingDirectory { cwd: cwd2, server_file_exists: true }),
        )) <==> cwd1@ == cwd2@,
{
    lemma_joined_base_injective(cwd1@, cwd2@, server_suffix());
}

/// The file-not-found message names both the attempted path and the base
/// directory it was formed from.
pub proof fn lemma_absence_message_names_path_and_base(path: String, base: String)
    ensures
        contains_substring((LocateError::FileNotFound { path, base }).message_spec(), path@),
        contains_substring((LocateError::FileNotFound { path, base }).message_spec(), base@),
{
    let m = (LocateError::FileNotFound { path, base }).message_spec();
    let p1 = "server file not found at "@;
    let p2 = "; base directory: "@;
    assert(m == ((p1 + path@) + p2) + base@);

    let i1 = p1.len() as int;
    assert forall|k: int| 0 <= k < path@.len() implies m.subrange(i1, i1 + path@.len() as int)[k]
        == path@[k] by {
        assert(((p1 + path@) + p2)[i1 + k] == (p1 + path@)[i1 + k]);
        assert((p1 + path@)[i1 + k] == path@[k]);
        assert(m[i1 + k] == path@[k]);
    }
    assert(m.subrange(i1, i1 + path@.len() as int) =~= path@);
    assert(0 <= i1 && i1 + path@.len() <= m.len() && m.subrange(i1, i1 + path@.len() as int)
        == path@);
    assert(contains_substring(m, path@));

    let i2 = i1 + path@.len() as int + p2.len() as int;
    assert forall|k: int| 0 <= k < base@.len() implies m.subrange(i2, i2 + base@.len() as int)[k]
        == base@[k] by {
        assert(m[i2 + k] == base@[k]);
    }
    assert(m.subrange(i2, i2 + base@.len() as int) =~= base@);
    assert(0 <= i2 && i2 + base@.len() <= m.len() && m.subrange(i2, i2 + base@.len() as int)
        == base@);
    assert(contains_substring(m, base@));
}

} // verus!
