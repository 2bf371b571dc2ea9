//! Repositories kept as the subdirectories of one plugin directory.
use crate::command::{git_command, string_views, Invocation, GIT};
use crate::repository::{Repositories, Repository};
use crate::text::{trim_line_end, trim_line_end_of};
use vstd::prelude::*;

verus! {

/// A plugin directory whose subdirectories are repositories.
pub struct GitDirectory;

/// One subdirectory of a plugin directory, with what
/// `GitDirectory::url_command` printed there.
#[derive(Debug, Clone)]
pub struct DirectoryEntry {
    pub dir: String,
    pub url_output: String,
}

/// The arguments that print the locator of the remote `origin`.
pub open spec fn url_args() -> Seq<Seq<char>> {
    seq!["config"@, "--get"@, "remote.origin.url"@]
}

/// Whether `r` is the repository of the subdirectory `entry`.
pub open spec fn is_repository_of(r: Repository, entry: DirectoryEntry) -> bool {
    r.uri@ == trim_line_end(entry.url_output@) && r.dir@ == entry.dir@
}

/// Whether `repos` are the repositories of `entries`, one for each, in order.
pub open spec fn are_repositories_of(repos: Seq<Repository>, entries: Seq<DirectoryEntry>) -> bool {
    &&& repos.len() == entries.len()
    &&& forall|i: int| 0 <= i < repos.len() ==> is_repository_of(#[trigger] repos[i], entries[i])
}

impl GitDirectory {
    /// Whether the plugin directory is there: a path that is not empty and
    /// exists on disk.
    pub fn exists_plugin_manager(path: &str, exists_on_disk: bool) -> (r: bool)
        ensures
            r == (path@.len() > 0 && exists_on_disk),
    {
        path.unicode_len() > 0 && exists_on_disk
    }

    /// The command that prints the locator of the remote `origin` of the
    /// working copy at `dir`.
    pub fn url_command(dir: &str) -> (r: Invocation)
        ensures
            r.program@ == GIT@,
            string_views(r.args@) == url_args(),
            r.dir@ == dir@,
            !r.discard_stdout,
    {
        let r = git_command(&["config", "--get", "remote.origin.url"], dir, false);
        assert(string_views(r.args@) =~= url_args());
        r
    }

    /// The locator that `url_command` printed, without its line end.
    pub fn get_url(output: &str) -> (r: String)
        ensures
            r@ == trim_line_end(output@),
    {
        trim_line_end_of(output)
    }

    /// The repositories of the subdirectories, in order.
    pub fn create_repositories_struct(entries: &Vec<DirectoryEntry>) -> (r: Repositories)
        ensures
            are_repositories_of(r@, entries@),
    {
        let mut r: Repositories = Vec::new();
        let mut i: usize = 0;
        while i < entries.len()
            invariant
                i <= entries@.len(),
                are_repositories_of(r@, entries@.subrange(0, i as int)),
            decreases entries@.len() - i,
        {
            let entry = &entries[i];
            let repo = Repository {
                uri: GitDirectory::get_url(entry.url_output.as_str()),
                dir: entry.dir.clone(),
            };
            r.push(repo);
            i = i + 1;
            assert(forall|j: int|
                0 <= j < i ==> entries@.subrange(0, i as int)[j] == entries@[j]);
        }
        assert(entries@.subrange(0, entries@.len() as int) =~= entries@);
        r
    }

    /// The repositories below the plugin directory at `path`: none where the
    /// directory is not there, else one for each subdirectory listed.
    pub fn get_repositories(path: &str, exists_on_disk: bool, entries: &Vec<DirectoryEntry>) -> (r:
        Repositories)
        ensures
            !(path@.len() > 0 && exists_on_disk) ==> r@.len() == 0,
            path@.len() > 0 && exists_on_disk ==> are_repositories_of(r@, entries@),
    {
        if !GitDirectory::exists_plugin_manager(path, exists_on_disk) {
            return Vec::new();
        }
        GitDirectory::create_repositories_struct(entries)
    }
}

} // verus!
