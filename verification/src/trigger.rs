//! Normalized trigger events and their dispatch against configured
//! repository plans.
//!
//! Dispatch is a pure decision: look the repository up by exact name, apply
//! the plan's branch and tag filters, and answer whether a pipeline run
//! should be scheduled.  The scheduling itself — one independent
//! run-to-completion task per matched trigger, never awaited by the caller —
//! is the I/O layer's.

use crate::config::{Config, Repository};
use crate::text::str_eq;
use vstd::prelude::*;

verus! {

/// A normalized trigger event: which repository should be deployed, on what
/// branch or tag, and with which named step set.  Trigger-source adapters
/// produce one of these from their own payload shape.
pub struct TriggeredInfo {
    pub repository: String,
    pub branch: Option<String>,
    pub tag: Option<String>,
    pub steps_name: Option<String>,
}

/// The view of an optional string.
pub open spec fn opt_view(o: Option<String>) -> Option<Seq<char>> {
    match o {
        Some(s) => Some(s@),
        None => None,
    }
}

/// Whether a configured filter accepts a trigger value.  No filter accepts
/// everything; a filter only accepts a trigger that carries the value at
/// all, and then either the filter is the wildcard `@any` or the values are
/// equal.
pub open spec fn filter_ok(filter: Option<Seq<char>>, value: Option<Seq<char>>) -> bool {
    match filter {
        None => true,
        Some(f) => match value {
            Some(v) => f == "@any"@ || v == f,
            None => false,
        },
    }
}

/// Filter matching: an `@any` filter accepts exactly the triggers that
/// carry a value of that kind; an exact filter accepts exactly its own
/// value; an absent filter accepts everything.
pub proof fn lemma_filter_matching(filter: Option<Seq<char>>, value: Option<Seq<char>>)
    ensures
        filter is None ==> filter_ok(filter, value),
        filter == Some("@any"@) ==> (filter_ok(filter, value) <==> value is Some),
        filter is Some && filter != Some("@any"@) ==> (filter_ok(filter, value) <==> value
            == filter),
{
}

/// Whether a plan's filters accept this trigger.
pub open spec fn filters_pass(repo: &Repository, ti: &TriggeredInfo) -> bool {
    filter_ok(opt_view(repo.branch), opt_view(ti.branch)) && filter_ok(
        opt_view(repo.tag),
        opt_view(ti.tag),
    )
}

fn filter_check(filter: &Option<String>, value: &Option<String>) -> (r: bool)
    ensures
        r == filter_ok(opt_view(*filter), opt_view(*value)),
{
    match filter {
        None => true,
        Some(f) => match value {
            Some(v) => str_eq(f.as_str(), "@any") || str_eq(v.as_str(), f.as_str()),
            None => false,
        },
    }
}

/// What dispatching a trigger decided.
pub enum DispatchDecision {
    /// No plan has the trigger's repository name: the event is accepted as
    /// a no-op.
    NoRepository,
    /// The first plan with the name refused the trigger's branch or tag.
    Skipped { repo_index: usize },
    /// The first plan with the name accepts the trigger: a pipeline run for
    /// this plan should be scheduled.
    Matched { repo_index: usize },
}

impl TriggeredInfo {
    /// Matches this trigger against the configured plans: the first plan
    /// with the trigger's repository name decides, through its branch and
    /// tag filters, whether a run is scheduled or the event is skipped.
    pub fn delivery(&self, config: &Config) -> (d: DispatchDecision)
        ensures
            match d {
                DispatchDecision::NoRepository => forall|j: int|
                    0 <= j < config.repository@.len()
                        ==> (#[trigger] config.repository@[j].name)@ != self.repository@,
                DispatchDecision::Skipped { repo_index } => {
                    &&& repo_index < config.repository@.len()
                    &&& config.repository@[repo_index as int].name@ == self.repository@
                    &&& forall|j: int|
                        0 <= j < repo_index
                            ==> (#[trigger] config.repository@[j].name)@ != self.repository@
                    &&& !filters_pass(&config.repository@[repo_index as int], self)
                },
                DispatchDecision::Matched { repo_index } => {
                    &&& repo_index < config.repository@.len()
                    &&& config.repository@[repo_index as int].name@ == self.repository@
                    &&& forall|j: int|
                        0 <= j < repo_index
                            ==> (#[trigger] config.repository@[j].name)@ != self.repository@
                    &&& filters_pass(&config.repository@[repo_index as int], self)
                },
            },
    {
        let mut i: usize = 0;
        while i < config.repository.len()
            invariant
                i <= config.repository@.len(),
                forall|j: int|
                    0 <= j < i ==> (#[trigger] config.repository@[j].name)@ != self.repository@,
            decreases config.repository@.len() - i,
        {
            let repo = &config.repository[i];
            if str_eq(repo.name.as_str(), self.repository.as_str()) {
                let branch_ok = filter_check(&repo.branch, &self.branch);
                let tag_ok = filter_check(&repo.tag, &self.tag);
                if branch_ok && tag_ok {
                    return DispatchDecision::Matched { repo_index: i };
                } else {
                    return DispatchDecision::Skipped { repo_index: i };
                }
            }
            i = i + 1;
        }
        DispatchDecision::NoRepository
    }
}

} // verus!
