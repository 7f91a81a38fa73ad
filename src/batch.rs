use vstd::prelude::*;

use crate::error::OcrError;
use crate::normalize::UnifiedResult;

verus! {

/// The item at which a batch stopped, and why.
#[derive(Clone, Debug)]
pub struct BatchFailure {
    pub index: usize,
    pub error: OcrError,
}

/// A batch of recognitions run one item after another, stopping at the
/// first failure.
#[derive(Clone, Debug)]
pub struct BatchRun {
    pub total: usize,
    pub results: Vec<UnifiedResult>,
    pub failure: Option<BatchFailure>,
}

impl BatchRun {
    /// Results come in input order and never outnumber the items; a failure
    /// stands at the index of the first item without a result.
    pub open spec fn wf(&self) -> bool {
        &&& self.results@.len() <= self.total
        &&& self.failure matches Some(f) ==> f.index == self.results@.len() && f.index
            < self.total
    }

    /// The index of the item to run next, if any: none once an item has
    /// failed or every item has a result.
    pub open spec fn pending(&self) -> Option<usize> {
        if self.failure is None && self.results@.len() < self.total {
            Some(self.results@.len() as usize)
        } else {
            None
        }
    }

    /// A batch of `total` items, none of them run.
    pub fn new(total: usize) -> (r: Self)
        ensures
            r.wf(),
            r.total == total,
            r.results@.len() == 0,
            r.failure is None,
    {
        BatchRun { total, results: Vec::new(), failure: None }
    }

    /// The index of the item to run next.
    pub fn next_index(&self) -> (r: Option<usize>)
        requires
            self.wf(),
        ensures
            r == self.pending(),
    {
        if self.failure.is_none() && self.results.len() < self.total {
            Some(self.results.len())
        } else {
            None
        }
    }

    /// Records how the pending item ended: a result is appended; an error
    /// ends the batch at that item's index.
    pub fn record(&mut self, outcome: Result<UnifiedResult, OcrError>)
        requires
            old(self).wf(),
            old(self).pending() is Some,
        ensures
            final(self).wf(),
            final(self).total == old(self).total,
            match outcome {
                Ok(u) => final(self).results@ == old(self).results@.push(u)
                    && final(self).failure is None,
                Err(e) => final(self).results@ == old(self).results@ && final(self).failure
                    == Some(BatchFailure { index: old(self).results@.len() as usize, error: e }),
            },
    {
        match outcome {
            Ok(u) => {
                self.results.push(u);
            },
            Err(e) => {
                let index = self.results.len();
                self.failure = Some(BatchFailure { index, error: e });
            },
        }
    }

    /// The batch's answer once nothing is pending: every result in input
    /// order, or the failure of the first item that failed.
    pub fn finish(self) -> (r: Result<Vec<UnifiedResult>, BatchFailure>)
        requires
            self.wf(),
            self.pending() is None,
        ensures
            self.failure is None ==> (r matches Ok(v) && v@ == self.results@ && v@.len()
                == self.total),
            self.failure matches Some(f) ==> r == Err::<Vec<UnifiedResult>, BatchFailure>(f),
    {
        match self.failure {
            Some(f) => Err(f),
            None => Ok(self.results),
        }
    }
}

/// A finished batch of `n` items either holds `n` results, or failed at an
/// index `i < n` after exactly the `i` results before it: no item after a
/// failure is run.
pub proof fn batch_is_complete_or_fails_fast(run: BatchRun)
    requires
        run.wf(),
        run.pending() is None,
    ensures
        run.failure is None ==> run.results@.len() == run.total,
        run.failure matches Some(f) ==> f.index < run.total && run.results@.len() == f.index,
{
}

} // verus!
