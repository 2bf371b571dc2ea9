//! The branch that a working copy's HEAD is on.
use crate::git::backend::{branch_is_head, branch_name, list_branches};
use vstd::prelude::*;

verus! {

/// The branch name that stands for a HEAD on no named branch.
pub const DEFAULT_BRANCH: &'static str = "master";

/// The index of the first `true`, if any.
pub open spec fn first_head(heads: Seq<bool>) -> Option<int>
    decreases heads.len(),
{
    if heads.len() == 0 {
        None
    } else if heads[0] {
        Some(0)
    } else {
        match first_head(heads.drop_first()) {
            Some(i) => Some(i + 1),
            None => None,
        }
    }
}

/// The branch that HEAD is on, from what was read of the working copy:
/// `None` where no branch is HEAD (a detached HEAD), `Some(None)` where the
/// HEAD branch's name is not valid UTF-8, `Some(Some(name))` otherwise. All
/// but the last fall back to the default name.
pub open spec fn current_branch(head: Option<Option<Seq<char>>>) -> Seq<char> {
    match head {
        Some(Some(name)) => name,
        _ => DEFAULT_BRANCH@,
    }
}

/// The characters of the HEAD branch's name, as `current_branch` takes them.
pub open spec fn head_view(head: Option<Option<String>>) -> Option<Option<Seq<char>>> {
    match head {
        Some(Some(name)) => Some(Some(name@)),
        Some(None) => Some(None),
        None => None,
    }
}

proof fn lemma_first_head_at(heads: Seq<bool>, i: int)
    requires
        0 <= i < heads.len(),
        heads[i],
        forall|j: int| 0 <= j < i ==> !heads[j],
    ensures
        first_head(heads) == Some(i),
    decreases i,
{
    if i > 0 {
        lemma_first_head_at(heads.drop_first(), i - 1);
    }
}

/// Finds the first branch marked as HEAD.
pub fn find_head(heads: &Vec<bool>) -> (r: Option<usize>)
    ensures
        r matches Some(i) ==> i < heads@.len() && first_head(heads@) == Some(i as int),
        r is None ==> first_head(heads@) is None,
{
    let mut i: usize = 0;
    while i < heads.len()
        invariant
            i <= heads@.len(),
            forall|j: int| 0 <= j < i ==> !heads@[j],
        decreases heads@.len() - i,
    {
        if heads[i] {
            proof {
                lemma_first_head_at(heads@, i as int);
            }
            return Some(i);
        }
        i = i + 1;
    }
    proof {
        lemma_no_head(heads@);
    }
    None
}

proof fn lemma_no_head(heads: Seq<bool>)
    requires
        forall|j: int| 0 <= j < heads.len() ==> !heads[j],
    ensures
        first_head(heads) is None,
    decreases heads.len(),
{
    if heads.len() > 0 {
        lemma_no_head(heads.drop_first());
    }
}

/// The name of the branch that HEAD points to, given what `read_head_branch`
/// read: where HEAD is on no branch (detached), or the name is not valid
/// UTF-8, this is the default name.
pub fn get_current_branch(head: Option<Option<String>>) -> (r: String)
    ensures
        r@ == current_branch(head_view(head)),
{
    match head {
        Some(Some(name)) => name,
        _ => String::from_str(DEFAULT_BRANCH),
    }
}

/// Reads which branch HEAD is on: `None` where no branch is, else the name of
/// the first branch that libgit2 reports as HEAD (`None` inside where that
/// name is not valid UTF-8).
pub fn read_head_branch(repo: &git2::Repository) -> (r: Result<Option<Option<String>>, git2::Error>) {
    let branches = list_branches(repo)?;
    let mut heads: Vec<bool> = Vec::new();
    let mut i: usize = 0;
    while i < branches.len()
        invariant
            i <= branches@.len(),
            heads@.len() == i,
        decreases branches@.len() - i,
    {
        heads.push(branch_is_head(&branches[i]));
        i = i + 1;
    }
    match find_head(&heads) {
        Some(k) => Ok(Some(branch_name(&branches[k])?)),
        None => Ok(None),
    }
}

} // verus!
