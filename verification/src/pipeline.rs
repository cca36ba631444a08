//! The pipeline runner's control state.
//!
//! A run executes a repository's selected step list strictly in order and
//! stops at the first failing step: later steps are never issued.  The I/O
//! layer drives the loop — ask for the next step index, execute that step,
//! record its result — and the contracts here force the short-circuit.

use crate::executor::{StepResult, StepsResult};
use vstd::prelude::*;

verus! {

/// The state of one pipeline run over `total` steps.
pub struct PipelineRun {
    pub results: Vec<StepResult>,
    pub total: usize,
    pub halted: bool,
}

impl PipelineRun {
    /// Every result recorded before the last one succeeded, and the run is
    /// halted exactly when the last recorded result failed.
    pub open spec fn wf(&self) -> bool {
        &&& self.results@.len() <= self.total
        &&& forall|i: int|
            0 <= i < self.results@.len() - 1 ==> #[trigger] self.results@[i].status == 0
        &&& self.halted == (self.results@.len() > 0 && self.results@.last().status != 0)
    }

    /// The index of the next step to execute, if any.
    pub open spec fn spec_next_index(&self) -> Option<usize> {
        if !self.halted && self.results@.len() < self.total {
            Some(self.results@.len() as usize)
        } else {
            None
        }
    }

    /// A fresh run over `total` steps.
    pub fn new(total: usize) -> (r: PipelineRun)
        ensures
            r.wf(),
            r.results@ == Seq::<StepResult>::empty(),
            r.total == total,
            !r.halted,
    {
        PipelineRun { results: Vec::new(), total, halted: false }
    }

    /// The next step to execute: `None` once every step ran or an executed
    /// step failed.
    pub fn next_index(&self) -> (r: Option<usize>)
        ensures
            r == self.spec_next_index(),
    {
        if !self.halted && self.results.len() < self.total {
            Some(self.results.len())
        } else {
            None
        }
    }

    /// Records the result of the step `next_index` issued.  A non-zero
    /// status halts the run: no further index is issued.
    pub fn record(&mut self, result: StepResult)
        requires
            old(self).wf(),
            old(self).spec_next_index() is Some,
        ensures
            final(self).wf(),
            final(self).results@ == old(self).results@.push(result),
            final(self).total == old(self).total,
            final(self).halted == (result.status != 0),
            final(self).spec_next_index() == if result.status == 0 && old(self).results@.len() + 1
                < old(self).total {
                Some((old(self).results@.len() + 1) as usize)
            } else {
                None::<usize>
            },
    {
        let failed = result.status != 0;
        self.results.push(result);
        self.halted = failed;
    }

    /// Aggregates the recorded results: the overall status is the status of
    /// the last executed step, zero when no step ran — and zero exactly when
    /// every executed step succeeded.
    pub fn finish(self) -> (r: StepsResult)
        requires
            self.wf(),
        ensures
            r.action_result@ == self.results@,
            r.status == if self.results@.len() == 0 {
                0i32
            } else {
                self.results@.last().status
            },
            (r.status == 0) <==> (forall|i: int|
                0 <= i < self.results@.len() ==> #[trigger] self.results@[i].status == 0),
    {
        let status: i32 = if self.results.len() == 0 {
            0
        } else {
            self.results[self.results.len() - 1].status
        };
        StepsResult { status, action_result: self.results }
    }
}

/// Short-circuit: once a recorded step has failed, the failing result is the
/// last one — every earlier step succeeded — and no further step index is
/// issued.
pub proof fn lemma_short_circuit(r: PipelineRun)
    requires
        r.wf(),
        r.halted,
    ensures
        r.results@.len() > 0,
        r.results@.last().status != 0,
        forall|i: int| 0 <= i < r.results@.len() - 1 ==> #[trigger] r.results@[i].status == 0,
        r.spec_next_index() is None,
{
}

} // verus!
