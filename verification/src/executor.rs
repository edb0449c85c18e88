//! Deletion executor: walks the deletion set one branch at a time and
//! records, per branch, whether the external delete operation reported
//! success. A failed deletion is recorded and the walk continues, so a
//! mid-batch failure never aborts the remaining attempts.

use vstd::prelude::*;

use crate::classify::Branch;

verus! {

/// The recorded result of one deletion attempt.
pub struct DeletionOutcome {
    pub branch: Branch,
    pub deleted: bool,
}

impl Clone for DeletionOutcome {
    fn clone(&self) -> (r: Self)
        ensures
            r == *self,
    {
        DeletionOutcome { branch: self.branch.clone(), deleted: self.deleted }
    }
}

/// The executor over a fixed deletion set: one pending target at a time,
/// one recorded outcome per target, in order.
pub struct Executor {
    targets: Vec<Branch>,
    cursor: usize,
    outcomes: Vec<DeletionOutcome>,
}

impl Executor {
    /// The deletion set the executor was started with.
    pub closed spec fn spec_targets(&self) -> Seq<Branch> {
        self.targets@
    }

    /// The outcomes recorded so far, one per attempted target.
    pub closed spec fn spec_outcomes(&self) -> Seq<DeletionOutcome> {
        self.outcomes@
    }

    /// Index of the next target to attempt.
    pub closed spec fn spec_cursor(&self) -> int {
        self.cursor as int
    }

    pub closed spec fn wf(&self) -> bool {
        &&& self.cursor <= self.targets@.len()
        &&& self.outcomes@.len() == self.cursor
        &&& forall|i: int|
            0 <= i < self.outcomes@.len() ==> (#[trigger] self.outcomes@[i]).branch
                == self.targets@[i]
    }

    pub fn new(targets: Vec<Branch>) -> (r: Executor)
        ensures
            r.wf(),
            r.spec_targets() == targets@,
            r.spec_cursor() == 0,
            r.spec_outcomes().len() == 0,
    {
        Executor { targets, cursor: 0, outcomes: Vec::new() }
    }

    /// Whether every target has been attempted.
    pub fn is_done(&self) -> (r: bool)
        requires
            self.wf(),
        ensures
            r == (self.spec_cursor() == self.spec_targets().len()),
    {
        self.cursor == self.targets.len()
    }

    /// The branch the next deletion attempt is about.
    pub fn next_target(&self) -> (r: Branch)
        requires
            self.wf(),
            self.spec_cursor() < self.spec_targets().len(),
        ensures
            r == self.spec_targets()[self.spec_cursor()],
    {
        self.targets[self.cursor].clone()
    }

    /// Records the result of the pending attempt and moves to the next
    /// target. The cursor advances whether the attempt succeeded or
    /// failed, so one failure never swallows the remaining targets.
    pub fn record(&mut self, deleted: bool)
        requires
            old(self).wf(),
            old(self).spec_cursor() < old(self).spec_targets().len(),
        ensures
            final(self).wf(),
            final(self).spec_targets() == old(self).spec_targets(),
            final(self).spec_cursor() == old(self).spec_cursor() + 1,
            final(self).spec_outcomes() == old(self).spec_outcomes().push(
                DeletionOutcome {
                    branch: old(self).spec_targets()[old(self).spec_cursor()],
                    deleted,
                },
            ),
    {
        let _n = self.targets.len();
        let branch = self.targets[self.cursor].clone();
        self.outcomes.push(DeletionOutcome { branch, deleted });
        self.cursor = self.cursor + 1;
    }

    /// Hands out the recorded outcomes.
    pub fn outcomes(&self) -> (r: &Vec<DeletionOutcome>)
        ensures
            r@ == self.spec_outcomes(),
    {
        &self.outcomes
    }
}

} // verus!
