//! Per-identifier stage outcomes, the stage decision, and the laws that
//! govern the outcomes of a whole run.

use vstd::prelude::*;
use crate::extract::{extraction_of, rss_extractor};

verus! {

/// What the fetch collaborator produced for one identifier: the raw page
/// content, or a failure with a human-readable detail.
pub enum FetchOutcome {
    Content(String),
    Failure(String),
}

/// Abstract value of a `FetchOutcome`.
pub enum FetchOutcomeView {
    Content(Seq<char>),
    Failure(Seq<char>),
}

impl View for FetchOutcome {
    type V = FetchOutcomeView;

    open spec fn view(&self) -> FetchOutcomeView {
        match self {
            FetchOutcome::Content(text) => FetchOutcomeView::Content(text@),
            FetchOutcome::Failure(detail) => FetchOutcomeView::Failure(detail@),
        }
    }
}

/// Why one stage failed.
pub enum FailureCause {
    /// The content could not be retrieved; carries the fetch detail text.
    FetchFailed(String),
    /// No fragment of the fetched content held the marker with a value.
    NoValueFound,
}

/// Abstract value of a `FailureCause`.
pub enum FailureCauseView {
    FetchFailed(Seq<char>),
    NoValueFound,
}

impl View for FailureCause {
    type V = FailureCauseView;

    open spec fn view(&self) -> FailureCauseView {
        match self {
            FailureCause::FetchFailed(detail) => FailureCauseView::FetchFailed(detail@),
            FailureCause::NoValueFound => FailureCauseView::NoValueFound,
        }
    }
}

/// Exactly one stage outcome is produced per submitted identifier.
pub enum StageOutcome {
    Success { id: String, value: Vec<u8> },
    Failure { id: String, cause: FailureCause },
}

/// Abstract value of a `StageOutcome`.
pub enum StageOutcomeView {
    Success { id: Seq<char>, value: Seq<u8> },
    Failure { id: Seq<char>, cause: FailureCauseView },
}

impl View for StageOutcome {
    type V = StageOutcomeView;

    open spec fn view(&self) -> StageOutcomeView {
        match self {
            StageOutcome::Success { id, value } => StageOutcomeView::Success {
                id: id@,
                value: value@,
            },
            StageOutcome::Failure { id, cause } => StageOutcomeView::Failure {
                id: id@,
                cause: cause@,
            },
        }
    }
}

impl DeepView for StageOutcome {
    type V = StageOutcomeView;

    open spec fn deep_view(&self) -> StageOutcomeView {
        self.view()
    }
}

/// One successful (identifier, value) pair of a run.
pub struct SuccessEntry {
    pub id: String,
    pub value: Vec<u8>,
}

/// Abstract value of a `SuccessEntry`.
pub struct SuccessEntryView {
    pub id: Seq<char>,
    pub value: Seq<u8>,
}

impl View for SuccessEntry {
    type V = SuccessEntryView;

    open spec fn view(&self) -> SuccessEntryView {
        SuccessEntryView { id: self.id@, value: self.value@ }
    }
}

impl DeepView for SuccessEntry {
    type V = SuccessEntryView;

    open spec fn deep_view(&self) -> SuccessEntryView {
        self.view()
    }
}

/// One recorded failure, keeping its identifier for attribution.
pub struct FailureEntry {
    pub id: String,
    pub cause: FailureCause,
}

/// Abstract value of a `FailureEntry`.
pub struct FailureEntryView {
    pub id: Seq<char>,
    pub cause: FailureCauseView,
}

impl View for FailureEntry {
    type V = FailureEntryView;

    open spec fn view(&self) -> FailureEntryView {
        FailureEntryView { id: self.id@, cause: self.cause@ }
    }
}

impl DeepView for FailureEntry {
    type V = FailureEntryView;

    open spec fn deep_view(&self) -> FailureEntryView {
        self.view()
    }
}

/// The success entries that a completion-ordered sequence of outcomes
/// yields, in that order.
pub open spec fn successes_of(outs: Seq<StageOutcomeView>) -> Seq<SuccessEntryView> {
    outs.filter_map(
        |o: StageOutcomeView|
            match o {
                StageOutcomeView::Success { id, value } => Some(SuccessEntryView { id, value }),
                StageOutcomeView::Failure { .. } => None,
            },
    )
}

/// The failure entries that a completion-ordered sequence of outcomes
/// yields, in that order.
pub open spec fn failures_of(outs: Seq<StageOutcomeView>) -> Seq<FailureEntryView> {
    outs.filter_map(
        |o: StageOutcomeView|
            match o {
                StageOutcomeView::Failure { id, cause } => Some(FailureEntryView { id, cause }),
                StageOutcomeView::Success { .. } => None,
            },
    )
}

/// Every outcome is either a success or a failure, so the successes and
/// failures drawn from a run's outcomes partition them: their counts sum to
/// the number of outcomes.
pub proof fn lemma_outcome_partition(outs: Seq<StageOutcomeView>)
    ensures
        successes_of(outs).len() + failures_of(outs).len() == outs.len(),
    decreases outs.len(),
{
    if outs.len() > 0 {
        lemma_outcome_partition(outs.drop_last());
    }
}

/// Whether an outcome is a success or a failure.
pub enum OutcomeKind {
    Success,
    Failure,
}

/// The (identifier, kind) pair of one outcome.
pub open spec fn outcome_kind(o: StageOutcomeView) -> (Seq<char>, OutcomeKind) {
    match o {
        StageOutcomeView::Success { id, .. } => (id, OutcomeKind::Success),
        StageOutcomeView::Failure { id, .. } => (id, OutcomeKind::Failure),
    }
}

/// The set of (identifier, kind) pairs across a sequence of outcomes.
pub open spec fn outcome_kinds(outs: Seq<StageOutcomeView>) -> Set<(Seq<char>, OutcomeKind)> {
    Set::new(
        |p: (Seq<char>, OutcomeKind)|
            exists|i: int| 0 <= i < outs.len() && outcome_kind(outs[i]) == p,
    )
}

/// Interleaving independence: two completion orders of the same outcomes
/// (each a permutation of the other) yield the same set of
/// (identifier, kind) pairs; only the order within the run's collections may
/// differ.
pub proof fn lemma_interleaving_independent(a: Seq<StageOutcomeView>, b: Seq<StageOutcomeView>)
    requires
        a.to_multiset() == b.to_multiset(),
    ensures
        outcome_kinds(a) == outcome_kinds(b),
{
    broadcast use vstd::seq_lib::group_to_multiset_ensures;

    assert forall|p: (Seq<char>, OutcomeKind)|
        outcome_kinds(a).contains(p) implies outcome_kinds(b).contains(p) by {
        let i = choose|i: int| 0 <= i < a.len() && outcome_kind(a[i]) == p;
        assert(a.contains(a[i]));
        assert(b.to_multiset().count(a[i]) > 0);
        assert(b.contains(a[i]));
        let j = choose|j: int| 0 <= j < b.len() && b[j] == a[i];
        assert(outcome_kind(b[j]) == p);
    }
    assert forall|p: (Seq<char>, OutcomeKind)|
        outcome_kinds(b).contains(p) implies outcome_kinds(a).contains(p) by {
        let i = choose|i: int| 0 <= i < b.len() && outcome_kind(b[i]) == p;
        assert(b.contains(b[i]));
        assert(a.to_multiset().count(b[i]) > 0);
        assert(a.contains(b[i]));
        let j = choose|j: int| 0 <= j < a.len() && a[j] == b[i];
        assert(outcome_kind(a[j]) == p);
    }
    assert(outcome_kinds(a) =~= outcome_kinds(b));
}

/// What the per-identifier stage owes, given the identifier, the fetch
/// outcome, the produced stage outcome, and whether a multiple-match notice
/// is due.
pub open spec fn stage_post(
    id: Seq<char>,
    fetch: FetchOutcomeView,
    out: StageOutcomeView,
    notice: bool,
) -> bool {
    match fetch {
        FetchOutcomeView::Failure(detail) => {
            &&& out == (StageOutcomeView::Failure {
                id,
                cause: FailureCauseView::FetchFailed(detail),
            })
            &&& !notice
        },
        FetchOutcomeView::Content(content) => {
            let values = extraction_of(content);
            if values.len() == 0 {
                &&& out == (StageOutcomeView::Failure {
                    id,
                    cause: FailureCauseView::NoValueFound,
                })
                &&& !notice
            } else {
                &&& out == (StageOutcomeView::Success { id, value: values[0] })
                &&& (notice <==> values.len() > 1)
            }
        },
    }
}

/// Composes the fetch outcome and the extraction into the one outcome of a
/// stage.
///
/// A fetch failure becomes a stage failure carrying the fetch cause; content
/// with no extracted value becomes a no-value failure; otherwise the first
/// value in document order is the success value. The returned flag says
/// whether more than one value was found: an informational notice, never a
/// failure.
pub fn evaluate_stage(id: String, fetch: FetchOutcome) -> (r: (StageOutcome, bool))
    ensures
        stage_post(id@, fetch@, r.0@, r.1),
{
    match fetch {
        FetchOutcome::Failure(detail) => (
            StageOutcome::Failure { id, cause: FailureCause::FetchFailed(detail) },
            false,
        ),
        FetchOutcome::Content(content) => {
            let ghost values = extraction_of(content@);
            let mut found = rss_extractor(content.as_str());
            if found.len() == 0 {
                (StageOutcome::Failure { id, cause: FailureCause::NoValueFound }, false)
            } else {
                let notice = found.len() > 1;
                let value = found.remove(0);
                proof {
                    assert(value@ =~= values[0]);
                }
                (StageOutcome::Success { id, value }, notice)
            }
        },
    }
}

} // verus!
