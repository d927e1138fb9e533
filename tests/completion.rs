use s3_event_pipeline::completion::{audit_trail, first_attempts, plan_acknowledgements, settle_response, DeleteEntry, PendingDeletion, MAX_ACK_BATCH};
use s3_event_pipeline::error::ErrorKind;
use s3_event_pipeline::pipeline::{Outcome, OutcomeStatus};

fn success(id: &str) -> Outcome<String> {
    Outcome::new(id.to_string(), format!("rh-{}", id), OutcomeStatus::Success(format!("out-{}", id)))
}

fn failure(id: &str, kind: ErrorKind, retryable: bool) -> Outcome<String> {
    Outcome::new(id.to_string(), format!("rh-{}", id), OutcomeStatus::Failure { kind, retryable })
}

fn ids(requests: &[Vec<DeleteEntry>]) -> Vec<String> {
    requests.iter().flatten().map(|e| e.message_id.clone()).collect()
}

fn entry(id: &str) -> DeleteEntry {
    DeleteEntry { message_id: id.to_string(), receipt_handle: format!("rh-{}", id) }
}

#[test]
fn every_success_deleted_once() {
    let batch: Vec<Outcome<String>> = (0..12).map(|i| success(&format!("m{}", i))).collect();
    let plan = plan_acknowledgements(&batch, MAX_ACK_BATCH);
    assert_eq!(plan.len(), 2);
    assert_eq!(plan[0].len(), 10);
    assert_eq!(plan[1].len(), 2);
    let expected: Vec<String> = (0..12).map(|i| format!("m{}", i)).collect();
    assert_eq!(ids(&plan), expected);
    assert_eq!(plan[1][1].receipt_handle, "rh-m11");
}

#[test]
fn exact_batch_size_makes_one_request() {
    let batch: Vec<Outcome<String>> = (0..10).map(|i| success(&format!("m{}", i))).collect();
    let plan = plan_acknowledgements(&batch, 10);
    assert_eq!(plan.len(), 1);
    assert!(plan_acknowledgements::<String>(&vec![], 10).is_empty());
}

#[test]
fn failures_do_not_block_successes() {
    let batch = vec![
        success("a"),
        failure("b", ErrorKind::RetrievalTimeout, true),
        success("c"),
        failure("d", ErrorKind::HandlerError { retryable: false, cause: "rejected".to_string() }, false),
        success("e"),
    ];
    let plan = plan_acknowledgements(&batch, 2);
    assert_eq!(ids(&plan), vec!["a", "c", "e"]);
    assert_eq!(plan.len(), 2);
}

#[test]
fn one_failure_leaves_others_unchanged() {
    let before = vec![success("a"), success("b"), success("c")];
    let after = vec![success("a"), failure("b", ErrorKind::EmitError { cause: "sink down".to_string() }, true), success("c")];
    assert_eq!(ids(&plan_acknowledgements(&before, 10)), vec!["a", "b", "c"]);
    assert_eq!(ids(&plan_acknowledgements(&after, 10)), vec!["a", "c"]);
}

#[test]
fn redelivered_message_is_acknowledged_after_success() {
    let first_cycle = vec![failure("m", ErrorKind::RetrievalTimeout, true)];
    assert!(plan_acknowledgements(&first_cycle, 10).is_empty());
    let second_cycle = vec![success("m")];
    let plan = plan_acknowledgements(&second_cycle, 10);
    assert_eq!(ids(&plan), vec!["m"]);
}

#[test]
fn non_retryable_failure_is_audited_not_deleted() {
    let batch = vec![failure("x", ErrorKind::HandlerError { retryable: false, cause: "rejected".to_string() }, false), success("y")];
    let audit = audit_trail(&batch);
    assert_eq!(audit.len(), 2);
    assert_eq!(audit[0].message_id, "x");
    assert_eq!(audit[0].failure, Some((ErrorKind::HandlerError { retryable: false, cause: "rejected".to_string() }, false)));
    assert_eq!(audit[1].failure, None);
    assert_eq!(ids(&plan_acknowledgements(&batch, 10)), vec!["y"]);
}

#[test]
fn rejected_deletions_are_retried_then_given_up() {
    let sent = first_attempts(vec![entry("a"), entry("b"), entry("c")]);
    assert!(sent.iter().all(|p| p.attempts == 0));
    let rejected = vec!["b".to_string(), "c".to_string()];
    let (retry, abandoned) = settle_response(sent, &rejected, 2);
    assert_eq!(retry, vec![
        PendingDeletion { entry: entry("b"), attempts: 1 },
        PendingDeletion { entry: entry("c"), attempts: 1 },
    ]);
    assert!(abandoned.is_empty());
    let (retry2, abandoned2) = settle_response(retry, &vec!["c".to_string()], 2);
    assert!(retry2.is_empty());
    assert_eq!(abandoned2, vec![entry("c")]);
}

#[test]
fn accepted_deletions_are_done() {
    let sent = first_attempts(vec![entry("a"), entry("b")]);
    let (retry, abandoned) = settle_response(sent, &vec![], 3);
    assert!(retry.is_empty());
    assert!(abandoned.is_empty());
}

#[test]
fn out_of_range_batch_size_uses_queue_limit() {
    let batch: Vec<Outcome<String>> = (0..25).map(|i| success(&format!("m{}", i))).collect();
    let zero = plan_acknowledgements(&batch, 0);
    assert_eq!(zero.iter().map(|r| r.len()).collect::<Vec<_>>(), vec![10, 10, 5]);
    let large = plan_acknowledgements(&batch, 50);
    assert_eq!(large.iter().map(|r| r.len()).collect::<Vec<_>>(), vec![10, 10, 5]);
    let three = plan_acknowledgements(&batch, 3);
    assert_eq!(three.len(), 9);
    assert_eq!(ids(&three).len(), 25);
}
