use rss_extract::aggregate::Aggregator;
use rss_extract::orchestrate::Orchestrator;
use rss_extract::outcome::{evaluate_stage, FailureCause, FetchOutcome, StageOutcome};
use rss_extract::CONCURRENCY_BOUND;

fn content_with(url: &str) -> String {
    format!("<script>var x={{\"rssUrl\":\"{}\"}}</script>", url)
}

#[test]
fn stage_fetch_failure_keeps_cause() {
    let (outcome, notice) = evaluate_stage(
        "chan".to_string(),
        FetchOutcome::Failure("connection refused".to_string()),
    );
    assert!(!notice);
    match outcome {
        StageOutcome::Failure { id, cause } => {
            assert_eq!(id, "chan");
            match cause {
                FailureCause::FetchFailed(detail) => assert_eq!(detail, "connection refused"),
                FailureCause::NoValueFound => panic!("wrong cause"),
            }
        }
        StageOutcome::Success { .. } => panic!("expected a failure"),
    }
}

#[test]
fn stage_zero_matches_is_no_value_found() {
    let (outcome, notice) = evaluate_stage(
        "chan".to_string(),
        FetchOutcome::Content("<script>var x = 1;</script>".to_string()),
    );
    assert!(!notice);
    match outcome {
        StageOutcome::Failure { id, cause } => {
            assert_eq!(id, "chan");
            assert!(matches!(cause, FailureCause::NoValueFound));
        }
        StageOutcome::Success { .. } => panic!("expected a failure"),
    }
}

#[test]
fn stage_single_match_is_success_without_notice() {
    let (outcome, notice) = evaluate_stage(
        "chan".to_string(),
        FetchOutcome::Content(content_with("https://a.example/feed")),
    );
    assert!(!notice);
    match outcome {
        StageOutcome::Success { id, value } => {
            assert_eq!(id, "chan");
            assert_eq!(value, b"https://a.example/feed".to_vec());
        }
        StageOutcome::Failure { .. } => panic!("expected a success"),
    }
}

#[test]
fn stage_multiple_matches_takes_first_with_notice() {
    let content = format!(
        "{}{}",
        content_with("https://first.example/feed"),
        content_with("https://second.example/feed")
    );
    let (outcome, notice) = evaluate_stage("chan".to_string(), FetchOutcome::Content(content));
    assert!(notice);
    match outcome {
        StageOutcome::Success { id, value } => {
            assert_eq!(id, "chan");
            assert_eq!(value, b"https://first.example/feed".to_vec());
        }
        StageOutcome::Failure { .. } => panic!("a notice is informational, never a failure"),
    }
}

#[test]
fn empty_identifier_list_is_rejected_before_any_fetch() {
    let fetch_invocations: usize = 0;
    match Orchestrator::new(Vec::new()) {
        Err(_) => {}
        Ok(_) => panic!("empty input must be a usage error"),
    }
    assert_eq!(fetch_invocations, 0);
}

#[test]
fn one_failure_and_one_success_are_both_reported() {
    let ids = vec!["good".to_string(), "bad".to_string()];
    let mut run = match Orchestrator::new(ids) {
        Ok(run) => run,
        Err(_) => panic!("input was non-empty"),
    };
    let first = run.try_start().expect("a free slot");
    let second = run.try_start().expect("a free slot");
    assert_eq!(first, "good");
    assert_eq!(second, "bad");
    let (good_outcome, _) = evaluate_stage(
        first,
        FetchOutcome::Content(content_with("https://x.com/feed")),
    );
    let (bad_outcome, _) = evaluate_stage(
        second,
        FetchOutcome::Failure("host unreachable".to_string()),
    );
    // The failure completes first; it must not suppress the success.
    run.record(bad_outcome);
    run.record(good_outcome);
    assert!(run.is_done());
    let output = run.finish();
    assert_eq!(output.successes.len(), 1);
    assert_eq!(output.successes[0].id, "good");
    assert_eq!(output.successes[0].value, b"https://x.com/feed".to_vec());
    let combined = match output.failure {
        Some(combined) => combined,
        None => panic!("the failing identifier must be reported"),
    };
    let entries = combined.into_entries();
    assert_eq!(entries.len(), 1);
    assert_eq!(entries[0].id, "bad");
    assert!(matches!(entries[0].cause, FailureCause::FetchFailed(_)));
}

#[test]
fn successes_and_failures_sum_to_input_size() {
    let ids = vec!["a".to_string(), "b".to_string(), "c".to_string()];
    let n = ids.len();
    let mut run = Orchestrator::new(ids).ok().expect("non-empty input");
    let mut outcomes = Vec::new();
    while let Some(id) = run.try_start() {
        let fetch = if id == "b" {
            FetchOutcome::Failure("timed out".to_string())
        } else {
            FetchOutcome::Content(content_with("https://x.com/feed"))
        };
        let (outcome, _) = evaluate_stage(id, fetch);
        outcomes.push(outcome);
    }
    run.record_all(outcomes);
    assert!(run.is_done());
    let output = run.finish();
    let failure_count = match output.failure {
        Some(combined) => combined.len(),
        None => 0,
    };
    assert_eq!(output.successes.len() + failure_count, n);
}

#[test]
fn concurrency_bound_caps_stages_in_flight() {
    let ids: Vec<String> = (0..12).map(|i| format!("chan{}", i)).collect();
    let mut run = Orchestrator::new(ids).ok().expect("non-empty input");
    let mut started = Vec::new();
    while let Some(id) = run.try_start() {
        started.push(id);
    }
    assert_eq!(started.len(), CONCURRENCY_BOUND);
    assert_eq!(run.in_flight_count(), CONCURRENCY_BOUND);
    assert_eq!(run.pending_count(), 2);
    // Releasing one slot lets exactly one more stage start.
    let done_id = started.remove(0);
    run.record(StageOutcome::Success {
        id: done_id,
        value: b"v".to_vec(),
    });
    assert!(run.try_start().is_some());
    assert_eq!(run.in_flight_count(), CONCURRENCY_BOUND);
    assert_eq!(run.pending_count(), 1);
}

fn fixed_outcomes() -> Vec<StageOutcome> {
    vec![
        StageOutcome::Success {
            id: "a".to_string(),
            value: b"va".to_vec(),
        },
        StageOutcome::Failure {
            id: "b".to_string(),
            cause: FailureCause::FetchFailed("boom".to_string()),
        },
        StageOutcome::Success {
            id: "c".to_string(),
            value: b"vc".to_vec(),
        },
    ]
}

fn kinds_of_run(completion_order: Vec<StageOutcome>) -> Vec<(String, bool)> {
    let ids = vec!["a".to_string(), "b".to_string(), "c".to_string()];
    let mut run = Orchestrator::new(ids).ok().expect("non-empty input");
    while run.try_start().is_some() {}
    run.record_all(completion_order);
    let output = run.finish();
    let mut kinds: Vec<(String, bool)> = Vec::new();
    for entry in &output.successes {
        kinds.push((entry.id.clone(), true));
    }
    if let Some(combined) = output.failure {
        for entry in combined.into_entries() {
            kinds.push((entry.id, false));
        }
    }
    kinds.sort();
    kinds
}

#[test]
fn completion_interleaving_does_not_change_outcome_kinds() {
    let one = kinds_of_run(fixed_outcomes());
    let mut reordered = fixed_outcomes();
    let last = reordered.remove(2);
    reordered.insert(0, last);
    let other = kinds_of_run(reordered);
    assert_eq!(one, other);
    assert_eq!(
        one,
        vec![
            ("a".to_string(), true),
            ("b".to_string(), false),
            ("c".to_string(), true),
        ]
    );
}

#[test]
fn aggregator_keeps_completion_order_and_attribution() {
    let mut aggregator = Aggregator::new();
    aggregator.record("late".to_string(), FailureCause::NoValueFound);
    aggregator.record(
        "later".to_string(),
        FailureCause::FetchFailed("no route".to_string()),
    );
    let combined = aggregator.finalize().expect("two failures were recorded");
    let entries = combined.into_entries();
    assert_eq!(entries.len(), 2);
    assert_eq!(entries[0].id, "late");
    assert!(matches!(entries[0].cause, FailureCause::NoValueFound));
    assert_eq!(entries[1].id, "later");
    assert!(matches!(entries[1].cause, FailureCause::FetchFailed(_)));
}

#[test]
fn aggregator_without_failures_finalizes_to_none() {
    let aggregator = Aggregator::new();
    assert!(aggregator.finalize().is_none());
}
