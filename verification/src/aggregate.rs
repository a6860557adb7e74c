//! Accumulating failures from completing stages into one combined,
//! attributable report.

use vstd::prelude::*;
use crate::outcome::{FailureCause, FailureEntry, FailureEntryView};

verus! {

/// Append-only accumulator for the failures of one run.
///
/// Multiple stages may complete at nearly the same instant; the accumulated
/// collection is a shared resource that must be mutated by one recorder at a
/// time, which `record`'s exclusive `&mut self` borrow enforces.
pub struct Aggregator {
    entries: Vec<FailureEntry>,
}

impl Aggregator {
    /// The failures recorded so far, in completion order.
    pub closed spec fn entries(&self) -> Seq<FailureEntryView> {
        self.entries.deep_view()
    }

    /// A fresh aggregator holds no failures.
    pub fn new() -> (r: Aggregator)
        ensures
            r.entries() == Seq::<FailureEntryView>::empty(),
    {
        let r = Aggregator { entries: Vec::new() };
        proof {
            assert(r.entries() =~= Seq::<FailureEntryView>::empty());
        }
        r
    }

    /// How many failures have been recorded.
    pub fn len(&self) -> (r: usize)
        ensures
            r == self.entries().len(),
    {
        self.entries.len()
    }

    /// Records one failing stage: the entry is appended, keeping its own
    /// identifier and cause for later attribution; every earlier entry is
    /// kept unchanged.
    pub fn record(&mut self, id: String, cause: FailureCause)
        ensures
            final(self).entries() == old(self).entries().push(
                (FailureEntryView { id: id@, cause: cause@ }),
            ),
    {
        let ghost before = self.entries.deep_view();
        self.entries.push(FailureEntry { id, cause });
        proof {
            assert(self.entries.deep_view() =~= before.push(
                FailureEntryView { id: id@, cause: cause@ },
            ));
        }
    }

    /// Finalizes the run's failures: the combined failure when at least one
    /// stage failed, or None as the explicit no-failure signal.
    pub fn finalize(self) -> (r: Option<AggregatedFailure>)
        ensures
            match r {
                Some(combined) => combined.entries() == self.entries() && self.entries().len() > 0,
                None => self.entries().len() == 0,
            },
    {
        if self.entries.len() == 0 {
            None
        } else {
            Some(AggregatedFailure { entries: self.entries })
        }
    }
}

/// The combined, per-identifier-attributed report of every failure of one
/// run, in completion order. Exists only for a run in which at least one
/// stage failed.
pub struct AggregatedFailure {
    entries: Vec<FailureEntry>,
}

impl AggregatedFailure {
    /// The recorded failures, in completion order.
    pub closed spec fn entries(&self) -> Seq<FailureEntryView> {
        self.entries.deep_view()
    }

    /// How many failures the report holds.
    pub fn len(&self) -> (r: usize)
        ensures
            r == self.entries().len(),
    {
        self.entries.len()
    }

    /// Hands the entries out for presentation.
    pub fn into_entries(self) -> (r: Vec<FailureEntry>)
        ensures
            r.deep_view() == self.entries(),
    {
        self.entries
    }
}

} // verus!
