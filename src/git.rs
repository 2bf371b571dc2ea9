//! Repository status: the data model, and how statuses are computed and acted on.
mod backend;
pub mod branch;
pub mod fetch;
pub mod status;
pub mod update;

use vstd::prelude::*;

verus! {

/// How a local working copy relates to its remote-tracking branch.
#[derive(Debug, Clone, Copy, PartialEq, Eq, Structural)]
pub enum UpdateStatus {
    /// The local HEAD differs from the remote-tracking branch.
    Required,
    /// The local HEAD is the remote-tracking branch's commit.
    Already,
    /// The local path holds no repository.
    NotGitRepository,
}

/// The reconciliation status of one repository.
#[derive(Debug, Clone)]
pub struct GitStatus {
    pub uri: String,
    pub dir: String,
    pub branch: String,
    pub status: UpdateStatus,
}

/// The classification of two commit identifiers: equal ones are current.
pub open spec fn classification(local: Seq<u8>, remote: Seq<u8>) -> UpdateStatus {
    if local == remote {
        UpdateStatus::Already
    } else {
        UpdateStatus::Required
    }
}

/// Compares the local HEAD's commit identifier with the remote-tracking
/// branch's one.
pub fn classify(local: &Vec<u8>, remote: &Vec<u8>) -> (r: UpdateStatus)
    ensures
        r == classification(local@, remote@),
{
    if local.len() != remote.len() {
        return UpdateStatus::Required;
    }
    let mut i: usize = 0;
    while i < local.len()
        invariant
            i <= local@.len(),
            local@.len() == remote@.len(),
            forall|j: int| 0 <= j < i ==> local@[j] == remote@[j],
        decreases local@.len() - i,
    {
        if local[i] != remote[i] {
            return UpdateStatus::Required;
        }
        i = i + 1;
    }
    assert(local@ =~= remote@);
    UpdateStatus::Already
}

} // verus!
