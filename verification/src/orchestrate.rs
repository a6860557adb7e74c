//! Driving one run: identifiers are handed out under a fixed concurrency
//! bound, and exactly one outcome per identifier is collected, successes and
//! failures separately.

use vstd::prelude::*;
use crate::CONCURRENCY_BOUND;
use crate::aggregate::{AggregatedFailure, Aggregator};
use crate::outcome::{
    failures_of, successes_of, FailureEntryView, StageOutcome, StageOutcomeView, SuccessEntry,
    SuccessEntryView,
};

verus! {

/// Rejection of a run that names no identifiers, reported before any fetch
/// work starts.
pub struct EmptyInputError;

/// What one finished run returns: every successful (identifier, value) pair,
/// and, separately, the combined failure if any stage failed.
pub struct RunOutput {
    pub successes: Vec<SuccessEntry>,
    pub failure: Option<AggregatedFailure>,
}

/// The orchestrator's bookkeeping for one run.
///
/// Identifiers are handed out by `try_start` while fewer than
/// `CONCURRENCY_BOUND` stages are in flight; each handed-out stage holds its
/// slot until its outcome is recorded. No outcome is ever discarded, and no
/// failure aborts the others: the run completes once every identifier's
/// outcome is in.
pub struct Orchestrator {
    pending: Vec<String>,
    in_flight: usize,
    successes: Vec<SuccessEntry>,
    aggregator: Aggregator,
    total: usize,
}

impl Orchestrator {
    /// Identifiers not yet handed out, in submission order.
    pub closed spec fn pending_ids(&self) -> Seq<Seq<char>> {
        self.pending.deep_view()
    }

    /// Stages handed out whose outcome has not been recorded yet.
    pub closed spec fn in_flight(&self) -> nat {
        self.in_flight as nat
    }

    /// Successes recorded so far, in completion order.
    pub closed spec fn successes(&self) -> Seq<SuccessEntryView> {
        self.successes.deep_view()
    }

    /// Failures recorded so far, in completion order.
    pub closed spec fn failures(&self) -> Seq<FailureEntryView> {
        self.aggregator.entries()
    }

    /// Outcomes recorded so far.
    pub open spec fn completed(&self) -> nat {
        self.successes().len() + self.failures().len()
    }

    /// How many identifiers the run was created with.
    pub closed spec fn total(&self) -> nat {
        self.total as nat
    }

    /// Accounting invariant: every identifier is pending, in flight, or
    /// completed, and the concurrency bound holds.
    pub open spec fn wf(&self) -> bool {
        &&& self.pending_ids().len() + self.in_flight() + self.completed() == self.total()
        &&& self.in_flight() <= CONCURRENCY_BOUND
    }

    /// Accepts a non-empty ordered list of identifiers. An empty list is a
    /// usage error, rejected before any work starts.
    pub fn new(ids: Vec<String>) -> (r: Result<Orchestrator, EmptyInputError>)
        ensures
            ids@.len() == 0 <==> r is Err,
            r matches Ok(run) ==> ({
                &&& run.wf()
                &&& run.pending_ids() == ids.deep_view()
                &&& run.in_flight() == 0
                &&& run.completed() == 0
                &&& run.successes() == Seq::<SuccessEntryView>::empty()
                &&& run.failures() == Seq::<FailureEntryView>::empty()
                &&& run.total() == ids@.len()
            }),
    {
        if ids.len() == 0 {
            return Err(EmptyInputError);
        }
        let total = ids.len();
        let run = Orchestrator {
            pending: ids,
            in_flight: 0,
            successes: Vec::new(),
            aggregator: Aggregator::new(),
            total,
        };
        proof {
            assert(run.successes() =~= Seq::<SuccessEntryView>::empty());
        }
        Ok(run)
    }

    /// Stages currently in flight.
    pub fn in_flight_count(&self) -> (r: usize)
        ensures
            r == self.in_flight(),
    {
        self.in_flight
    }

    /// Identifiers not yet handed out.
    pub fn pending_count(&self) -> (r: usize)
        ensures
            r == self.pending_ids().len(),
    {
        self.pending.len()
    }

    /// True once every identifier's outcome has been recorded.
    pub fn is_done(&self) -> (r: bool)
        requires
            self.wf(),
        ensures
            r <==> self.completed() == self.total(),
    {
        self.pending.len() == 0 && self.in_flight == 0
    }

    /// Hands out the next identifier if a concurrency slot is free and work
    /// is pending; the slot stays held until the stage's outcome is
    /// recorded.
    pub fn try_start(&mut self) -> (r: Option<String>)
        requires
            old(self).wf(),
        ensures
            final(self).wf(),
            final(self).total() == old(self).total(),
            final(self).successes() == old(self).successes(),
            final(self).failures() == old(self).failures(),
            if old(self).in_flight() < CONCURRENCY_BOUND && old(self).pending_ids().len() > 0 {
                &&& r matches Some(id) && id@ == old(self).pending_ids()[0]
                &&& final(self).pending_ids() == old(self).pending_ids().drop_first()
                &&& final(self).in_flight() == old(self).in_flight() + 1
            } else {
                &&& r is None
                &&& final(self).pending_ids() == old(self).pending_ids()
                &&& final(self).in_flight() == old(self).in_flight()
            },
    {
        if self.in_flight < CONCURRENCY_BOUND && self.pending.len() > 0 {
            let ghost before = self.pending.deep_view();
            let id = self.pending.remove(0);
            self.in_flight = self.in_flight + 1;
            proof {
                assert(self.pending.deep_view() =~= before.drop_first());
            }
            Some(id)
        } else {
            None
        }
    }

    /// Records one stage outcome: a success joins the success collection, a
    /// failure is appended to the aggregate, each keeping its identifier.
    /// Nothing already recorded is discarded, and a failure never suppresses
    /// work elsewhere: only the recorded stage's slot is released.
    pub fn record(&mut self, outcome: StageOutcome)
        requires
            old(self).wf(),
            old(self).in_flight() >= 1,
        ensures
            final(self).wf(),
            final(self).total() == old(self).total(),
            final(self).pending_ids() == old(self).pending_ids(),
            final(self).in_flight() == old(self).in_flight() - 1,
            match outcome@ {
                StageOutcomeView::Success { id, value } => {
                    &&& final(self).successes() == old(self).successes().push(
                        (SuccessEntryView { id, value }),
                    )
                    &&& final(self).failures() == old(self).failures()
                },
                StageOutcomeView::Failure { id, cause } => {
                    &&& final(self).successes() == old(self).successes()
                    &&& final(self).failures() == old(self).failures().push(
                        (FailureEntryView { id, cause }),
                    )
                },
            },
    {
        self.in_flight = self.in_flight - 1;
        match outcome {
            StageOutcome::Success { id, value } => {
                let ghost before = self.successes.deep_view();
                self.successes.push(SuccessEntry { id, value });
                proof {
                    assert(self.successes.deep_view() =~= before.push(
                        self.successes@.last().view(),
                    ));
                }
            },
            StageOutcome::Failure { id, cause } => {
                self.aggregator.record(id, cause);
            },
        }
    }

    /// Records a batch of outcomes in the given completion order.
    pub fn record_all(&mut self, outcomes: Vec<StageOutcome>)
        requires
            old(self).wf(),
            outcomes@.len() <= old(self).in_flight(),
        ensures
            final(self).wf(),
            final(self).total() == old(self).total(),
            final(self).pending_ids() == old(self).pending_ids(),
            final(self).in_flight() == old(self).in_flight() - outcomes@.len(),
            final(self).successes() == old(self).successes() + successes_of(outcomes.deep_view()),
            final(self).failures() == old(self).failures() + failures_of(outcomes.deep_view()),
    {
        let ghost all = outcomes.deep_view();
        let ghost base_s = old(self).successes();
        let ghost base_f = old(self).failures();
        let total_count = outcomes.len();
        let mut remaining = outcomes;
        let mut done: usize = 0;
        while done < total_count
            invariant
                self.wf(),
                done <= total_count,
                total_count == all.len(),
                remaining@.len() + done == all.len(),
                remaining.deep_view() =~= all.skip(done as int),
                self.total() == old(self).total(),
                self.pending_ids() == old(self).pending_ids(),
                self.in_flight() == old(self).in_flight() - done,
                total_count - done <= self.in_flight(),
                self.successes() =~= base_s + successes_of(all.take(done as int)),
                self.failures() =~= base_f + failures_of(all.take(done as int)),
            decreases total_count - done,
        {
            let ghost rem_before = remaining.deep_view();
            let next = remaining.remove(0);
            proof {
                assert(remaining.deep_view() =~= rem_before.drop_first());
                assert(remaining.deep_view() =~= all.skip(done as int + 1));
                assert(rem_before[0] == all.skip(done as int)[0]);
                assert(next.deep_view() == rem_before[0]);
                assert(next.deep_view() == all[done as int]);
            }
            self.record(next);
            proof {
                let sf = |o: StageOutcomeView|
                    match o {
                        StageOutcomeView::Success { id, value } => Some(
                            SuccessEntryView { id, value },
                        ),
                        StageOutcomeView::Failure { .. } => None,
                    };
                let ff = |o: StageOutcomeView|
                    match o {
                        StageOutcomeView::Failure { id, cause } => Some(
                            FailureEntryView { id, cause },
                        ),
                        StageOutcomeView::Success { .. } => None,
                    };
                all.lemma_filter_map_take_succ(sf, done as int);
                all.lemma_filter_map_take_succ(ff, done as int);
                assert(self.successes() =~= base_s + successes_of(all.take(done as int + 1)));
                assert(self.failures() =~= base_f + failures_of(all.take(done as int + 1)));
            }
            done = done + 1;
        }
        proof {
            assert(all.take(all.len() as int) =~= all);
        }
    }

    /// Completes the run once every outcome is in: every successful pair,
    /// and the combined failure if any stage failed. For the run's N
    /// identifiers exactly N outcomes were recorded, so the success count
    /// and the failure count sum to N.
    pub fn finish(self) -> (r: RunOutput)
        requires
            self.wf(),
            self.completed() == self.total(),
        ensures
            r.successes.deep_view() == self.successes(),
            match r.failure {
                Some(combined) => combined.entries() == self.failures() && self.failures().len()
                    > 0,
                None => self.failures().len() == 0,
            },
            r.successes.deep_view().len() + (match r.failure {
                Some(combined) => combined.entries().len(),
                None => 0,
            }) == self.total(),
    {
        let Orchestrator { pending: _, in_flight: _, successes, aggregator, total: _ } = self;
        let failure = aggregator.finalize();
        RunOutput { successes, failure }
    }
}

} // verus!
