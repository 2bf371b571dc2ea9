//! Bringing stale repositories up to date from an already computed batch.
use crate::command::{git_command, string_views, Invocation, GIT};
use crate::git::{GitStatus, UpdateStatus};
use vstd::prelude::*;

verus! {

/// The arguments of a pull that also updates nested sub-repositories.
pub open spec fn pull_args() -> Seq<Seq<char>> {
    seq!["pull"@, "--no-stat"@, "--recurse-submodules"@]
}

/// Whether `cmd` pulls into the working copy at `dir`, with its standard
/// output discarded.
pub open spec fn is_pull_of(cmd: Invocation, dir: Seq<char>) -> bool {
    &&& cmd.program@ == GIT@
    &&& string_views(cmd.args@) == pull_args()
    &&& cmd.dir@ == dir
    &&& cmd.discard_stdout
}

/// The command that merges the fetched remote branch into the working copy
/// at `dir`, nested sub-repositories included.
pub fn update_repository_by_command(dir: &str) -> (r: Invocation)
    ensures
        is_pull_of(r, dir@),
{
    let r = git_command(&["pull", "--no-stat", "--recurse-submodules"], dir, true);
    assert(string_views(r.args@) =~= pull_args());
    r
}

/// The positions of the entries that need an update, in order.
pub open spec fn required_indices(statuses: Seq<GitStatus>) -> Seq<int>
    decreases statuses.len(),
{
    if statuses.len() == 0 {
        Seq::empty()
    } else {
        let rest = required_indices(statuses.drop_last());
        if statuses.last().status == UpdateStatus::Required {
            rest.push(statuses.len() - 1)
        } else {
            rest
        }
    }
}

/// Every position that `required_indices` lists is in range.
pub proof fn lemma_required_indices_in_range(statuses: Seq<GitStatus>)
    ensures
        forall|k: int|
            0 <= k < required_indices(statuses).len() ==> 0 <= #[trigger] required_indices(
                statuses,
            )[k] < statuses.len(),
    decreases statuses.len(),
{
    if statuses.len() > 0 {
        let rest = required_indices(statuses.drop_last());
        lemma_required_indices_in_range(statuses.drop_last());
        assert forall|k: int| 0 <= k < rest.len() implies 0 <= #[trigger] rest[k] < statuses.len() by {}
    }
}

/// One update to launch: the repository's locator, for the report, and the
/// pull to run.
#[derive(Debug, Clone)]
pub struct UpdateJob {
    pub uri: String,
    pub command: Invocation,
}

/// Whether `job` updates the repository of `status`.
pub open spec fn is_update_of(job: UpdateJob, status: GitStatus) -> bool {
    job.uri@ == status.uri@ && is_pull_of(job.command, status.dir@)
}

/// Whether `jobs` are the updates of `statuses`: one pull for each entry that
/// needs an update, in order, and none for the others.
pub open spec fn are_updates_of(jobs: Seq<UpdateJob>, statuses: Seq<GitStatus>) -> bool {
    &&& jobs.len() == required_indices(statuses).len()
    &&& forall|k: int|
        0 <= k < jobs.len() ==> is_update_of(
            #[trigger] jobs[k],
            statuses[required_indices(statuses)[k]],
        )
}

/// The pulls that bring every entry marked `Required` up to date. Entries that
/// are current or not repositories are skipped; nothing is fetched again.
pub fn update_repositories(statuses: &Vec<GitStatus>) -> (r: Vec<UpdateJob>)
    ensures
        are_updates_of(r@, statuses@),
{
    let mut jobs: Vec<UpdateJob> = Vec::new();
    let mut i: usize = 0;
    while i < statuses.len()
        invariant
            i <= statuses@.len(),
            are_updates_of(jobs@, statuses@.subrange(0, i as int)),
        decreases statuses@.len() - i,
    {
        let ghost prefix = statuses@.subrange(0, i as int);
        let ghost next = statuses@.subrange(0, i + 1);
        assert(next.drop_last() =~= prefix);
        proof {
            lemma_required_indices_in_range(prefix);
        }
        let status = &statuses[i];
        if status.status == UpdateStatus::Required {
            let job = UpdateJob {
                uri: status.uri.clone(),
                command: update_repository_by_command(status.dir.as_str()),
            };
            jobs.push(job);
        }
        i = i + 1;
        assert forall|k: int| 0 <= k < jobs@.len() implies is_update_of(
            #[trigger] jobs@[k],
            next[required_indices(next)[k]],
        ) by {
            if k < required_indices(prefix).len() {
                assert(next[required_indices(prefix)[k]] == prefix[required_indices(prefix)[k]]);
            }
        }
    }
    assert(statuses@.subrange(0, statuses@.len() as int) =~= statuses@);
    jobs
}

/// Updating a batch in which nothing is marked `Required` launches nothing,
/// and since the batch is left as it was, a second run launches nothing either.
pub proof fn lemma_update_idempotent(statuses: Seq<GitStatus>)
    requires
        forall|i: int| 0 <= i < statuses.len() ==> statuses[i].status != UpdateStatus::Required,
    ensures
        required_indices(statuses) == Seq::<int>::empty(),
        forall|jobs: Seq<UpdateJob>| are_updates_of(jobs, statuses) ==> jobs.len() == 0,
    decreases statuses.len(),
{
    if statuses.len() > 0 {
        lemma_update_idempotent(statuses.drop_last());
    }
}

} // verus!
