use resume_pipeline::archive::UploadTask;
use resume_pipeline::subtask::RetryPolicy;
use resume_pipeline::subtask::Subtask;
use resume_pipeline::subtask::SubtaskAction;
use resume_pipeline::subtask::SubtaskEvent;
use resume_pipeline::subtask::SubtaskOutcome;

const ARCHIVE: u128 = 77;

fn task() -> UploadTask {
    UploadTask { upload_path: "batch.zip_a.pdf".to_string(), bytes: vec![1, 2, 3] }
}

/// What a scripted world did for one sub-task.
struct Trace {
    outcome: SubtaskOutcome,
    link_attempts: usize,
    /// The milliseconds slept before each attempt after the first.
    sleeps: Vec<u64>,
    clock_ms: u64,
    /// The clock at each attempt.
    attempt_times: Vec<u64>,
    uploads: usize,
    released: usize,
}

/// Runs a sub-task. `upload_ok` says how the upload goes; `rows` gives, for
/// each link attempt in turn, the rows it affects, or `None` where the
/// update itself fails.
fn run_subtask(policy: RetryPolicy, upload_ok: bool, rows: &[Option<u64>]) -> Trace {
    let mut trace = Trace {
        outcome: SubtaskOutcome::UploadFailed,
        link_attempts: 0,
        sleeps: Vec::new(),
        clock_ms: 0,
        attempt_times: Vec::new(),
        uploads: 0,
        released: 0,
    };
    let (mut sub, mut action) = Subtask::start(ARCHIVE, task(), policy);
    let mut turns = 0;
    loop {
        turns += 1;
        assert!(turns < 100);
        let event = match action {
            SubtaskAction::AcquirePermit => SubtaskEvent::PermitGranted,
            SubtaskAction::Upload { bucket, key, bytes, content_type, upsert } => {
                assert_eq!(bucket, "resumes");
                assert_eq!(key, "batch.zip_a.pdf");
                assert_eq!(bytes, vec![1, 2, 3]);
                assert_eq!(content_type, "application/pdf");
                assert!(!upsert);
                trace.uploads += 1;
                if upload_ok {
                    SubtaskEvent::Uploaded
                } else {
                    SubtaskEvent::UploadFailed { detail: "503".to_string() }
                }
            },
            SubtaskAction::Link { archive_id, upload_path } => {
                assert_eq!(archive_id, ARCHIVE);
                assert_eq!(upload_path, "batch.zip_a.pdf");
                let answer = rows[trace.link_attempts];
                trace.link_attempts += 1;
                trace.attempt_times.push(trace.clock_ms);
                match answer {
                    Some(rows_affected) => SubtaskEvent::LinkAttempted { rows_affected },
                    None => SubtaskEvent::LinkFailed { detail: "deadlock".to_string() },
                }
            },
            SubtaskAction::Sleep { millis } => {
                trace.sleeps.push(millis);
                trace.clock_ms += millis;
                SubtaskEvent::Slept
            },
            SubtaskAction::ReleasePermit => {
                trace.released += 1;
                SubtaskEvent::PermitReleased
            },
            SubtaskAction::Finished { outcome } => {
                assert!(sub.is_done());
                trace.outcome = outcome;
                return trace;
            },
            SubtaskAction::Unexpected => panic!("the sub-task did not expect its own answer"),
        };
        let (next, asked) = sub.step(event);
        sub = next;
        action = asked;
    }
}

#[test]
fn default_policy_is_three_attempts_half_a_second_apart() {
    let policy = RetryPolicy::link_default();
    assert_eq!(policy.max_attempts, 3);
    assert_eq!(policy.delay_ms, 500);
}

#[test]
fn row_present_at_once_links_at_first_attempt() {
    let trace = run_subtask(RetryPolicy::link_default(), true, &[Some(1)]);
    assert_eq!(trace.outcome, SubtaskOutcome::Linked { attempts: 1 });
    assert_eq!(trace.link_attempts, 1);
    assert!(trace.sleeps.is_empty());
    assert_eq!(trace.uploads, 1);
    assert_eq!(trace.released, 1);
}

#[test]
fn row_that_appears_by_second_attempt_links_within_two() {
    let trace = run_subtask(RetryPolicy::link_default(), true, &[Some(0), Some(1), Some(1)]);
    assert_eq!(trace.outcome, SubtaskOutcome::Linked { attempts: 2 });
    assert_eq!(trace.link_attempts, 2);
    assert_eq!(trace.sleeps, vec![500]);
    assert_eq!(trace.released, 1);
}

#[test]
fn row_that_never_appears_takes_exactly_three_attempts() {
    let trace = run_subtask(RetryPolicy::link_default(), true, &[Some(0), Some(0), Some(0)]);
    assert_eq!(trace.outcome, SubtaskOutcome::LinkRetryExhausted);
    assert_eq!(trace.link_attempts, 3);
    assert_eq!(trace.sleeps, vec![500, 500]);
    assert_eq!(trace.attempt_times.len(), 3);
    for pair in trace.attempt_times.windows(2) {
        assert!(pair[1] - pair[0] >= 500);
    }
    assert_eq!(trace.released, 1);
}

#[test]
fn failing_link_update_counts_as_an_attempt() {
    let trace = run_subtask(RetryPolicy::link_default(), true, &[None, None, Some(4)]);
    assert_eq!(trace.outcome, SubtaskOutcome::Linked { attempts: 3 });
    assert_eq!(trace.link_attempts, 3);
    assert_eq!(trace.sleeps, vec![500, 500]);
    let trace = run_subtask(RetryPolicy::link_default(), true, &[None, None, None]);
    assert_eq!(trace.outcome, SubtaskOutcome::LinkRetryExhausted);
    assert_eq!(trace.link_attempts, 3);
}

#[test]
fn failed_upload_is_never_linked() {
    let trace = run_subtask(RetryPolicy::link_default(), false, &[]);
    assert_eq!(trace.outcome, SubtaskOutcome::UploadFailed);
    assert_eq!(trace.link_attempts, 0);
    assert_eq!(trace.uploads, 1);
    assert_eq!(trace.released, 1);
    assert!(trace.sleeps.is_empty());
}

#[test]
fn policy_sets_attempts_and_delay() {
    let policy = RetryPolicy { max_attempts: 5, delay_ms: 20 };
    let trace = run_subtask(policy, true, &[Some(0); 5]);
    assert_eq!(trace.outcome, SubtaskOutcome::LinkRetryExhausted);
    assert_eq!(trace.link_attempts, 5);
    assert_eq!(trace.sleeps, vec![20, 20, 20, 20]);
    let single = RetryPolicy { max_attempts: 1, delay_ms: 500 };
    let trace = run_subtask(single, true, &[Some(0)]);
    assert_eq!(trace.outcome, SubtaskOutcome::LinkRetryExhausted);
    assert_eq!(trace.link_attempts, 1);
    assert!(trace.sleeps.is_empty());
}

#[test]
fn policy_without_attempts_never_links() {
    let none = RetryPolicy { max_attempts: 0, delay_ms: 500 };
    let trace = run_subtask(none, true, &[]);
    assert_eq!(trace.outcome, SubtaskOutcome::LinkRetryExhausted);
    assert_eq!(trace.link_attempts, 0);
    assert_eq!(trace.uploads, 1);
}

#[test]
fn subtask_ignores_events_it_does_not_wait_for() {
    let (sub, _) = Subtask::start(ARCHIVE, task(), RetryPolicy::link_default());
    let (sub, answer) = sub.step(SubtaskEvent::Uploaded);
    assert!(matches!(answer, SubtaskAction::Unexpected));
    let (sub, answer) = sub.step(SubtaskEvent::LinkAttempted { rows_affected: 1 });
    assert!(matches!(answer, SubtaskAction::Unexpected));
    assert!(!sub.is_done());
    let (sub, upload) = sub.step(SubtaskEvent::PermitGranted);
    assert!(matches!(upload, SubtaskAction::Upload { .. }));
    let (sub, answer) = sub.step(SubtaskEvent::Slept);
    assert!(matches!(answer, SubtaskAction::Unexpected));
    let (sub, link) = sub.step(SubtaskEvent::Uploaded);
    assert!(matches!(link, SubtaskAction::Link { .. }));
    let (_, answer) = sub.step(SubtaskEvent::Slept);
    assert!(matches!(answer, SubtaskAction::Unexpected));
}

#[test]
fn finished_subtask_stays_finished() {
    let (sub, _) = Subtask::start(ARCHIVE, task(), RetryPolicy::link_default());
    let (sub, _) = sub.step(SubtaskEvent::PermitGranted);
    let (sub, _) = sub.step(SubtaskEvent::Uploaded);
    let (sub, release) = sub.step(SubtaskEvent::LinkAttempted { rows_affected: 2 });
    assert!(matches!(release, SubtaskAction::ReleasePermit));
    let (sub, _) = sub.step(SubtaskEvent::PermitReleased);
    assert!(sub.is_done());
    let (sub, again) = sub.step(SubtaskEvent::LinkAttempted { rows_affected: 0 });
    assert!(matches!(
        again,
        SubtaskAction::Finished { outcome: SubtaskOutcome::Linked { attempts: 1 } }
    ));
    assert!(sub.is_done());
}
