//! What a synchronisation run reports of one repository.

use vstd::prelude::*;

verus! {

/// How a repository fared in one synchronisation run.
#[derive(Clone, Copy, Debug, PartialEq, Eq, Structural)]
pub enum PullStatus {
    /// Another branch than the tracked one is checked out: nothing was moved.
    Unchanged,
    /// The tracked branch was moved forward.
    Updated,
    /// The tracked branch was already where the remote is.
    UpToDate,
}

impl PullStatus {
    /// The label of the status as a sequence of characters.
    pub open spec fn label(self) -> Seq<char> {
        match self {
            PullStatus::Unchanged => "unchanged"@,
            PullStatus::Updated => "updated"@,
            PullStatus::UpToDate => "up to date"@,
        }
    }

    /// The fixed label under which the status is reported.
    pub fn to_str(&self) -> (label: &'static str)
        ensures
            label@ == self.label(),
    {
        match *self {
            PullStatus::Unchanged => "unchanged",
            PullStatus::Updated => "updated",
            PullStatus::UpToDate => "up to date",
        }
    }
}

/// No label is longer than the column that the status is reported in, and
/// no two statuses share a label.
pub proof fn lemma_labels(a: PullStatus, b: PullStatus)
    ensures
        0 < a.label().len() <= 10,
        a.label() == b.label() ==> a == b,
{
    reveal_strlit("unchanged");
    reveal_strlit("updated");
    reveal_strlit("up to date");
    assert("unchanged"@.len() == 9);
}

/// The result of synchronising one repository.
#[derive(Debug, PartialEq, Eq)]
pub struct SyncOutcome {
    pub status: PullStatus,
    /// The commit that `HEAD` named before anything was done.
    pub before_hash: String,
    /// The commit that `HEAD` named at the end.
    pub after_hash: String,
    /// What is shown beside the status.
    pub remark: String,
}

/// A `SyncOutcome` with its texts as sequences of characters.
pub struct OutcomeView {
    pub status: PullStatus,
    pub before_hash: Seq<char>,
    pub after_hash: Seq<char>,
    pub remark: Seq<char>,
}

impl View for SyncOutcome {
    type V = OutcomeView;

    open spec fn view(&self) -> OutcomeView {
        OutcomeView {
            status: self.status,
            before_hash: self.before_hash@,
            after_hash: self.after_hash@,
            remark: self.remark@,
        }
    }
}

impl Clone for SyncOutcome {
    fn clone(&self) -> (copy: Self)
        ensures
            copy@ == self@,
    {
        SyncOutcome {
            status: self.status,
            before_hash: self.before_hash.clone(),
            after_hash: self.after_hash.clone(),
            remark: self.remark.clone(),
        }
    }
}

} // verus!
