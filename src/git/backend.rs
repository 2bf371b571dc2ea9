//! The calls into libgit2 that resolution makes, each behind a small trusted
//! item. What they read lives on disk, so no contract here says what comes back.
// Renamed: this crate has a `Repository` of its own, the descriptor.
use git2::Repository as LocalRepository;
use vstd::prelude::*;

verus! {

#[verifier::external_type_specification]
#[verifier::external_body]
pub struct ExRepository(LocalRepository);

#[verifier::external_type_specification]
#[verifier::external_body]
pub struct ExError(git2::Error);

#[verifier::external_type_specification]
#[verifier::external_body]
pub struct ExBranch<'repo>(git2::Branch<'repo>);

/// Relies on git2::Repository::open: opens the repository whose working copy
/// or git directory is at `dir`, or fails.
#[verifier::external_body]
pub(crate) fn open_repository(dir: &str) -> (r: Result<LocalRepository, git2::Error>) {
    LocalRepository::open(dir)
}

/// Relies on git2::Repository::branches: every branch of the repository, local
/// and remote-tracking, in the order that libgit2 lists them.
#[verifier::external_body]
pub(crate) fn list_branches<'repo>(repo: &'repo LocalRepository) -> (r: Result<
    Vec<git2::Branch<'repo>>,
    git2::Error,
>) {
    repo.branches(None)?.map(|item| item.map(|(branch, _)| branch)).collect()
}

/// Relies on git2::Branch::is_head: whether HEAD points at this branch.
#[verifier::external_body]
pub(crate) fn branch_is_head(branch: &git2::Branch) -> (r: bool) {
    branch.is_head()
}

/// Relies on git2::Branch::name: the branch's short name, `None` where it is
/// not valid UTF-8.
#[verifier::external_body]
pub(crate) fn branch_name(branch: &git2::Branch) -> (r: Result<Option<String>, git2::Error>) {
    branch.name().map(|name| name.map(|s| s.to_string()))
}

/// Relies on git2::Repository::revparse_single, then Object::id and
/// Oid::as_bytes to turn the object into plain bytes: the identifier of the
/// object that a revision string names. libgit2 holds an object identifier in
/// twenty bytes (`GIT_OID_RAWSZ`).
#[verifier::external_body]
pub(crate) fn revparse_id(repo: &LocalRepository, spec: &str) -> (r: Result<Vec<u8>, git2::Error>)
    ensures
        r is Ok ==> r->Ok_0@.len() == 20,
{
    repo.revparse_single(spec).map(|object| object.id().as_bytes().to_vec())
}

} // verus!
