//! Classifying one repository, and gathering the classifications of many.
use crate::command::Invocation;
use crate::git::backend::{open_repository, revparse_id};
use crate::git::branch::{get_current_branch, read_head_branch, DEFAULT_BRANCH};
use crate::git::fetch::{fetch_repository, is_fetch_of};
use crate::git::{classify, GitStatus, UpdateStatus};
use crate::repository::Repository;
use vstd::prelude::*;

verus! {

/// Why a repository could not be classified.
#[derive(Debug)]
pub enum StatusError {
    /// The branches of the working copy could not be read.
    Branch(git2::Error),
    /// The revision could not be resolved to a commit (a remote-tracking
    /// branch that does not exist, say).
    Revision(String, git2::Error),
    /// Resolution did not finish in the time allowed to one repository.
    TimedOut,
}

/// The first step of classifying a repository.
pub enum Resolution {
    /// The repository is classified without further work.
    Classified(GitStatus),
    /// The repository opened: run the fetch, then call
    /// `get_status_after_fetch` with the opened repository.
    Fetch(git2::Repository, Invocation),
}

/// Whether `s` is the status of a descriptor whose path holds no repository.
pub open spec fn is_not_a_repository_status(s: GitStatus, repo: Repository) -> bool {
    &&& s.uri@ == repo.uri@
    &&& s.dir@ == repo.dir@
    &&& s.branch@ == DEFAULT_BRANCH@
    &&& s.status == UpdateStatus::NotGitRepository
}

/// The status of a descriptor whose path holds no repository.
pub fn not_a_repository(repo: &Repository) -> (r: GitStatus)
    ensures
        is_not_a_repository_status(r, *repo),
{
    GitStatus {
        uri: repo.uri.clone(),
        dir: repo.dir.clone(),
        branch: String::from_str(DEFAULT_BRANCH),
        status: UpdateStatus::NotGitRepository,
    }
}

/// What `resolution_of` promises of its result `r`.
pub open spec fn resolution_of_ensures(
    repo: Repository,
    opened: Result<git2::Repository, git2::Error>,
    r: Resolution,
) -> bool {
    &&& opened is Err ==> (r matches Resolution::Classified(s) && is_not_a_repository_status(
        s,
        repo,
    ))
    &&& opened is Ok ==> (r matches Resolution::Fetch(g, cmd) && g == opened->Ok_0 && is_fetch_of(
        cmd,
        repo.dir@,
    ))
}

/// What follows an attempt to open the descriptor's path: where it failed,
/// the repository is classified as no repository at all, which is no error;
/// else its remote branches are to be fetched.
pub fn resolution_of(repo: &Repository, opened: Result<git2::Repository, git2::Error>) -> (r:
    Resolution)
    ensures
        resolution_of_ensures(*repo, opened, r),
{
    match opened {
        Ok(git_repo) => Resolution::Fetch(git_repo, fetch_repository(repo)),
        Err(_) => Resolution::Classified(not_a_repository(repo)),
    }
}

/// Opens the descriptor's path as a repository and says what comes next.
pub fn begin_resolution(repo: &Repository) -> (r: Resolution)
    ensures
        r matches Resolution::Classified(s) ==> is_not_a_repository_status(s, *repo),
        r matches Resolution::Fetch(_, cmd) ==> is_fetch_of(cmd, repo.dir@),
{
    resolution_of(repo, open_repository(repo.dir.as_str()))
}

/// The remote-tracking branch that follows a local branch.
pub open spec fn remote_branch_of(branch: Seq<char>) -> Seq<char> {
    "origin/"@ + branch
}

/// Names the remote-tracking branch of `branch` on the remote `origin`.
pub fn remote_branch_name(branch: &str) -> (r: String)
    ensures
        r@ == remote_branch_of(branch@),
{
    let mut r = String::from_str("origin/");
    r.append(branch);
    r
}

/// Compares the commit of HEAD with that of the remote-tracking branch of the
/// current branch. Either one failing to resolve is an error.
pub fn get_update_status(repo: &git2::Repository) -> (r: Result<UpdateStatus, StatusError>)
    ensures
        r matches Ok(st) ==> st == UpdateStatus::Already || st == UpdateStatus::Required,
{
    let branch = match read_head_branch(repo) {
        Ok(head) => get_current_branch(head),
        Err(e) => return Err(StatusError::Branch(e)),
    };
    let remote_branch = remote_branch_name(branch.as_str());
    let local_hash = match revparse_id(repo, "HEAD") {
        Ok(h) => h,
        Err(e) => return Err(StatusError::Revision(String::from_str("HEAD"), e)),
    };
    let remote_hash = match revparse_id(repo, remote_branch.as_str()) {
        Ok(h) => h,
        Err(e) => return Err(StatusError::Revision(remote_branch, e)),
    };
    Ok(classify(&local_hash, &remote_hash))
}

/// Classifies an opened repository once its remote branches were fetched (or
/// the fetch failed: the classification then rests on what was fetched before).
pub fn get_status_after_fetch(repo: &Repository, git_repo: &git2::Repository) -> (r: Result<
    GitStatus,
    StatusError,
>)
    ensures
        r matches Ok(s) ==> {
            &&& s.uri@ == repo.uri@
            &&& s.dir@ == repo.dir@
            &&& s.status == UpdateStatus::Already || s.status == UpdateStatus::Required
        },
{
    let branch = match read_head_branch(git_repo) {
        Ok(head) => get_current_branch(head),
        Err(e) => return Err(StatusError::Branch(e)),
    };
    let status = get_update_status(git_repo)?;
    Ok(GitStatus { uri: repo.uri.clone(), dir: repo.dir.clone(), branch, status })
}

/// The number of workers that resolve repositories side by side: the host's
/// available parallelism, capped by the configured bound, and at least one.
pub fn worker_count(available: usize, limit: Option<usize>) -> (r: usize)
    ensures
        r >= 1,
        limit is None ==> r == if available == 0 { 1 } else { available },
        limit matches Some(m) ==> r == if available == 0 || m == 0 {
            1
        } else if available < m {
            available
        } else {
            m
        },
{
    let n = match limit {
        Some(m) => if available < m {
            available
        } else {
            m
        },
        None => available,
    };
    if n == 0 {
        1
    } else {
        n
    }
}

/// The statuses of the outcomes that are statuses, in order: a repository
/// that could not be classified is left out of the batch.
pub open spec fn statuses_of(outcomes: Seq<Result<GitStatus, StatusError>>) -> Seq<GitStatus>
    decreases outcomes.len(),
{
    if outcomes.len() == 0 {
        Seq::empty()
    } else {
        let rest = statuses_of(outcomes.drop_last());
        match outcomes.last() {
            Ok(s) => rest.push(s),
            Err(_) => rest,
        }
    }
}

/// Gathers the outcomes of resolving many repositories into one batch.
pub fn collect_statuses(outcomes: Vec<Result<GitStatus, StatusError>>) -> (r: Vec<GitStatus>)
    ensures
        r@ == statuses_of(outcomes@),
{
    let mut r: Vec<GitStatus> = Vec::new();
    let ghost all = outcomes@;
    for outcome in it: outcomes.into_iter()
        invariant
            it.seq() == all,
            r@ == statuses_of(all.subrange(0, it.index() as int)),
    {
        proof {
            assert(all.subrange(0, it.index() + 1).drop_last() =~= all.subrange(0, it.index() as int));
        }
        match outcome {
            Ok(s) => r.push(s),
            Err(_) => {},
        }
    }
    assert(all.subrange(0, all.len() as int) =~= all);
    r
}


/// Where every repository resolves without an unrecoverable error, the batch
/// holds one status per descriptor: the status of each, in order.
pub proof fn lemma_batch_complete(outcomes: Seq<Result<GitStatus, StatusError>>)
    requires
        forall|i: int| 0 <= i < outcomes.len() ==> outcomes[i] is Ok,
    ensures
        statuses_of(outcomes).len() == outcomes.len(),
        forall|i: int| 0 <= i < outcomes.len() ==> statuses_of(outcomes)[i] == outcomes[i]->Ok_0,
    decreases outcomes.len(),
{
    if outcomes.len() > 0 {
        lemma_batch_complete(outcomes.drop_last());
    }
}

proof fn lemma_batch_len_update(
    outcomes: Seq<Result<GitStatus, StatusError>>,
    i: int,
    x: Result<GitStatus, StatusError>,
)
    requires
        0 <= i < outcomes.len(),
    ensures
        statuses_of(outcomes.update(i, x)).len() + (if outcomes[i] is Ok { 1int } else { 0 })
            == statuses_of(outcomes).len() + (if x is Ok { 1int } else { 0 }),
    decreases outcomes.len(),
{
    let updated = outcomes.update(i, x);
    if i == outcomes.len() - 1 {
        assert(updated.drop_last() =~= outcomes.drop_last());
    } else {
        assert(updated.drop_last() =~= outcomes.drop_last().update(i, x));
        lemma_batch_len_update(outcomes.drop_last(), i, x);
    }
}

/// A fetch that fails leaves the repository to be classified from what was
/// fetched before: its outcome is still a status, and the batch keeps its
/// length whichever status that is.
pub proof fn lemma_fetch_failure_isolated(
    outcomes: Seq<Result<GitStatus, StatusError>>,
    i: int,
    s: GitStatus,
)
    requires
        0 <= i < outcomes.len(),
        outcomes[i] is Ok,
    ensures
        statuses_of(outcomes.update(i, Ok(s))).len() == statuses_of(outcomes).len(),
{
    lemma_batch_len_update(outcomes, i, Ok(s));
}

/// An unrecoverable error of one repository takes that repository, and no
/// other, out of the batch.
pub proof fn lemma_error_isolated(
    outcomes: Seq<Result<GitStatus, StatusError>>,
    i: int,
    e: StatusError,
)
    requires
        0 <= i < outcomes.len(),
        outcomes[i] is Ok,
    ensures
        statuses_of(outcomes.update(i, Err(e))).len() == statuses_of(outcomes).len() - 1,
{
    lemma_batch_len_update(outcomes, i, Err(e));
}

/// Every status among the outcomes stands in the batch.
pub proof fn lemma_status_kept(outcomes: Seq<Result<GitStatus, StatusError>>, i: int)
    requires
        0 <= i < outcomes.len(),
        outcomes[i] is Ok,
    ensures
        exists|k: int|
            0 <= k < statuses_of(outcomes).len() && #[trigger] statuses_of(outcomes)[k]
                == outcomes[i]->Ok_0,
    decreases outcomes.len(),
{
    let rest = statuses_of(outcomes.drop_last());
    if i == outcomes.len() - 1 {
        assert(statuses_of(outcomes)[rest.len() as int] == outcomes[i]->Ok_0);
    } else {
        lemma_status_kept(outcomes.drop_last(), i);
        let k = choose|k: int| 0 <= k < rest.len() && #[trigger] rest[k] == outcomes.drop_last()[i]->Ok_0;
        assert(statuses_of(outcomes)[k] == rest[k]);
    }
}

/// A descriptor whose path holds no repository is classified, never an
/// error: whatever the other repositories give, the batch holds its
/// not-a-repository status, with its locator and path.
pub proof fn lemma_non_repository_in_batch(
    outcomes: Seq<Result<GitStatus, StatusError>>,
    i: int,
    repo: Repository,
    opened: Result<git2::Repository, git2::Error>,
    step: Resolution,
)
    requires
        0 <= i < outcomes.len(),
        opened is Err,
        step matches Resolution::Classified(s) && outcomes[i] == Ok::<GitStatus, StatusError>(s),
        resolution_of_ensures(repo, opened, step),
    ensures
        exists|k: int|
            0 <= k < statuses_of(outcomes).len() && is_not_a_repository_status(
                #[trigger] statuses_of(outcomes)[k],
                repo,
            ),
{
    lemma_status_kept(outcomes, i);
    let k = choose|k: int|
        0 <= k < statuses_of(outcomes).len() && #[trigger] statuses_of(outcomes)[k]
            == outcomes[i]->Ok_0;
    assert(is_not_a_repository_status(statuses_of(outcomes)[k], repo));
}

} // verus!
