use vstd::prelude::*;
use crate::dispatch::CopyJob;

verus! {

/// How one copy attempt ended.
#[derive(Debug, PartialEq, Eq, Structural)]
pub enum CopyOutcome {
    /// The file was copied; the number of bytes written.
    Copied(u64),
    /// The destination was missing or unwritable, or the transfer failed.
    Failed,
}

/// The copies of one notification, attempted one at a time in destination
/// order. Each attempt is made whatever became of the earlier ones.
pub struct CopyRound {
    jobs: Vec<CopyJob>,
    outcomes: Vec<CopyOutcome>,
}

/// The job to attempt after the outcomes `outcomes` were recorded: the next
/// one in order, whatever those outcomes were, or none once all were tried.
pub open spec fn next_of(jobs: Seq<CopyJob>, outcomes: Seq<CopyOutcome>) -> Option<CopyJob> {
    if outcomes.len() < jobs.len() {
        Some(jobs[outcomes.len() as int])
    } else {
        None
    }
}

/// The number of successful copies among `outcomes`.
pub open spec fn copied_count(outcomes: Seq<CopyOutcome>) -> nat
    decreases outcomes.len(),
{
    if outcomes.len() == 0 {
        0
    } else {
        copied_count(outcomes.drop_last()) + if outcomes.last() is Copied {
            1nat
        } else {
            0nat
        }
    }
}

impl CopyRound {
    /// The jobs of the round, in order.
    pub closed spec fn jobs(&self) -> Seq<CopyJob> {
        self.jobs@
    }

    /// The outcome of each attempt made so far, in order.
    pub closed spec fn outcomes(&self) -> Seq<CopyOutcome> {
        self.outcomes@
    }

    /// No more outcomes than jobs.
    pub open spec fn wf(&self) -> bool {
        self.outcomes().len() <= self.jobs().len()
    }

    /// Starts a round over `jobs`, with no attempt made.
    pub fn new(jobs: Vec<CopyJob>) -> (r: CopyRound)
        ensures
            r.wf(),
            r.jobs() == jobs@,
            r.outcomes() == Seq::<CopyOutcome>::empty(),
    {
        CopyRound { jobs, outcomes: Vec::new() }
    }

    /// The job to attempt next, if any is left.
    pub fn next_job(&self) -> (r: Option<&CopyJob>)
        requires
            self.wf(),
        ensures
            match r {
                Some(j) => next_of(self.jobs(), self.outcomes()) == Some(*j),
                None => next_of(self.jobs(), self.outcomes()) is None,
            },
    {
        if self.outcomes.len() < self.jobs.len() {
            Some(&self.jobs[self.outcomes.len()])
        } else {
            None
        }
    }

    /// Records how the attempt of the job that `next_job` gave ended.
    pub fn record(&mut self, outcome: CopyOutcome)
        requires
            old(self).wf(),
            old(self).outcomes().len() < old(self).jobs().len(),
        ensures
            final(self).wf(),
            final(self).jobs() == old(self).jobs(),
            final(self).outcomes() == old(self).outcomes().push(outcome),
    {
        self.outcomes.push(outcome);
    }

    /// Whether every job was attempted.
    pub fn is_done(&self) -> (r: bool)
        requires
            self.wf(),
        ensures
            r == (self.outcomes().len() == self.jobs().len()),
    {
        self.outcomes.len() == self.jobs.len()
    }

    /// The number of jobs whose copy succeeded.
    pub fn copied(&self) -> (r: usize)
        ensures
            r == copied_count(self.outcomes()),
    {
        let mut n: usize = 0;
        let mut i: usize = 0;
        while i < self.outcomes.len()
            invariant
                0 <= i <= self.outcomes@.len(),
                n == copied_count(self.outcomes@.subrange(0, i as int)),
                n <= i,
            decreases self.outcomes@.len() - i,
        {
            assert(self.outcomes@.subrange(0, i as int + 1).drop_last() =~= self.outcomes@.subrange(
                0,
                i as int,
            ));
            if let CopyOutcome::Copied(_) = self.outcomes[i] {
                n = n + 1;
            }
            i = i + 1;
        }
        assert(self.outcomes@.subrange(0, i as int) =~= self.outcomes@);
        n
    }
}

/// A failed copy does not hold up the rest of its round: whatever the outcome
/// of attempt `k` (a success or a failure), the job attempted after it is
/// job `k + 1`, the same as after a failure.
pub proof fn law_failure_isolated(jobs: Seq<CopyJob>, outcomes: Seq<CopyOutcome>, o: CopyOutcome)
    requires
        outcomes.len() + 1 < jobs.len(),
    ensures
        next_of(jobs, outcomes) == Some(jobs[outcomes.len() as int]),
        next_of(jobs, outcomes.push(o)) == Some(jobs[outcomes.len() + 1int]),
        next_of(jobs, outcomes.push(o)) == next_of(jobs, outcomes.push(CopyOutcome::Failed)),
{
}

} // verus!
