//! Reconciles local plugin repositories against their remotes: classifies each
//! working copy as current, stale or not a repository, and plans the updates.
pub mod command;
pub mod git;
pub mod repository;
pub mod text;
pub mod viewer;

use crate::git::update::{
    are_updates_of, is_update_of, lemma_required_indices_in_range, required_indices, update_repositories, UpdateJob};
use crate::git::{GitStatus, UpdateStatus};
use crate::text::{trim_line_end, trimmed_line_len};
use vstd::prelude::*;

verus! {

/// What the update workflow does next.
#[derive(Debug)]
pub enum UpdatePlan {
    /// No repository needs an update: stop, successfully.
    UpToDate,
    /// Ask whether to go on, and hand the answer to `after_confirmation`.
    Confirm,
    /// Launch these pulls, all of them before waiting for any.
    Launch(Vec<UpdateJob>),
    /// The update was declined: nothing is changed.
    Cancelled,
}

/// Whether some entry of the batch needs an update.
pub open spec fn any_required(statuses: Seq<GitStatus>) -> bool {
    exists|i: int| 0 <= i < statuses.len() && #[trigger] statuses[i].status == UpdateStatus::Required
}

proof fn lemma_required_indices_empty(statuses: Seq<GitStatus>)
    ensures
        required_indices(statuses).len() == 0 <==> !any_required(statuses),
    decreases statuses.len(),
{
    if statuses.len() > 0 {
        let init = statuses.drop_last();
        lemma_required_indices_empty(init);
        if any_required(init) {
            let i = choose|i: int| 0 <= i < init.len() && #[trigger] init[i].status == UpdateStatus::Required;
            assert(statuses[i] == init[i]);
        }
        if any_required(statuses) && statuses.last().status != UpdateStatus::Required {
            let i = choose|i: int| 0 <= i < statuses.len() && #[trigger] statuses[i].status == UpdateStatus::Required;
            assert(init[i] == statuses[i]);
        }
    }
}

/// The locators of the entries that need an update, in order.
pub open spec fn stale_locators(statuses: Seq<GitStatus>) -> Seq<Seq<char>> {
    required_indices(statuses).map_values(|i: int| statuses[i].uri@)
}

/// The check workflow's report: the locators of the repositories that are
/// behind their remotes, in the batch's order.
pub fn check(statuses: &Vec<GitStatus>) -> (r: Vec<String>)
    ensures
        r@.map_values(|s: String| s@) == stale_locators(statuses@),
{
    let jobs = update_repositories(statuses);
    let mut r: Vec<String> = Vec::new();
    let mut k: usize = 0;
    while k < jobs.len()
        invariant
            k <= jobs@.len(),
            are_updates_of(jobs@, statuses@),
            r@.map_values(|s: String| s@) == stale_locators(statuses@).subrange(0, k as int),
        decreases jobs@.len() - k,
    {
        proof {
            lemma_required_indices_in_range(statuses@);
        }
        assert(is_update_of(
            jobs@[k as int],
            statuses@[required_indices(statuses@)[k as int]],
        ));
        let ghost before = r@;
        r.push(jobs[k].uri.clone());
        assert(r@ == before.push(jobs@[k as int].uri));
        assert(stale_locators(statuses@)[k as int] == jobs@[k as int].uri@);
        assert(stale_locators(statuses@).subrange(0, k + 1) =~= stale_locators(statuses@).subrange(
            0,
            k as int,
        ).push(jobs@[k as int].uri@));
        k = k + 1;
        assert(r@.map_values(|s: String| s@) =~= stale_locators(statuses@).subrange(0, k as int));
    }
    assert(stale_locators(statuses@).subrange(0, k as int) =~= stale_locators(statuses@));
    r
}

/// The update workflow without confirmation: launch a pull for every entry
/// that needs one, or stop where none does.
pub fn update(statuses: &Vec<GitStatus>) -> (r: UpdatePlan)
    ensures
        !any_required(statuses@) ==> r is UpToDate,
        any_required(statuses@) ==> (r matches UpdatePlan::Launch(jobs) && are_updates_of(
            jobs@,
            statuses@,
        )),
{
    let jobs = update_repositories(statuses);
    proof {
        lemma_required_indices_empty(statuses@);
    }
    if jobs.len() == 0 {
        UpdatePlan::UpToDate
    } else {
        UpdatePlan::Launch(jobs)
    }
}

/// The update workflow with confirmation: ask once where some entry needs an
/// update, or stop where none does.
pub fn update_with_confirm(statuses: &Vec<GitStatus>) -> (r: UpdatePlan)
    ensures
        !any_required(statuses@) ==> r is UpToDate,
        any_required(statuses@) ==> r is Confirm,
{
    match update(statuses) {
        UpdatePlan::UpToDate => UpdatePlan::UpToDate,
        _ => UpdatePlan::Confirm,
    }
}

/// Whether an answer, once its line end is trimmed, agrees: `Y`, `y`, or
/// nothing at all.
pub open spec fn is_yes(answer: Seq<char>) -> bool {
    let t = trim_line_end(answer);
    t.len() == 0 || t == seq!['Y'] || t == seq!['y']
}

/// Reads the answer to "Do you want to continue? [Y/n]".
pub fn is_continued_by_user(answer: &str) -> (r: bool)
    ensures
        r == is_yes(answer@),
{
    let n = trimmed_line_len(answer);
    if n == 0 {
        return true;
    }
    if n == 1 {
        let c = answer.get_char(0);
        let ghost t = answer@.subrange(0, 1);
        assert(t.len() == 1 && t[0] == c);
        assert(t == seq![c]) by {
            assert(t =~= seq![c]);
        }
        return c == 'Y' || c == 'y';
    }
    assert(trim_line_end(answer@).len() == n);
    false
}

/// Goes on with the update once the user answered: every pull where the answer
/// agrees, nothing where it does not.
pub fn after_confirmation(statuses: &Vec<GitStatus>, answer: &str) -> (r: UpdatePlan)
    ensures
        is_yes(answer@) ==> (r matches UpdatePlan::Launch(jobs) && are_updates_of(
            jobs@,
            statuses@,
        )),
        !is_yes(answer@) ==> r is Cancelled,
{
    if is_continued_by_user(answer) {
        UpdatePlan::Launch(update_repositories(statuses))
    } else {
        UpdatePlan::Cancelled
    }
}

} // verus!
