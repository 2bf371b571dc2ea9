//! Bringing a working copy's remote-tracking branches up to date.
use crate::command::{git_command, string_views, Invocation, GIT};
use crate::repository::Repository;
use vstd::prelude::*;

verus! {

/// The arguments of a fetch of all remote branches.
pub open spec fn fetch_args() -> Seq<Seq<char>> {
    seq!["fetch"@, "-a"@]
}

/// Whether `cmd` fetches all remote branches of the working copy at `dir`.
pub open spec fn is_fetch_of(cmd: Invocation, dir: Seq<char>) -> bool {
    &&& cmd.program@ == GIT@
    &&& string_views(cmd.args@) == fetch_args()
    &&& cmd.dir@ == dir
    &&& !cmd.discard_stdout
}

/// The command that fetches every remote branch of the repository. It runs
/// the external executable rather than libgit2, which cannot fetch into a
/// shallow clone. A failure of this command is only worth a warning.
pub fn fetch_repository(repo: &Repository) -> (r: Invocation)
    ensures
        is_fetch_of(r, repo.dir@),
{
    let r = git_command(&["fetch", "-a"], repo.dir.as_str(), false);
    assert(string_views(r.args@) =~= fetch_args());
    r
}

} // verus!
