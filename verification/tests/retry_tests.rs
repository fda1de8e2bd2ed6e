use biusrv::retry::{backoff, failure_notice, retry_operation, Retry, RetryDecision, MAX_RETRY};
use std::cell::RefCell;

#[test]
fn backoff_doubles_from_one_second() {
    assert_eq!(backoff(0), 1);
    assert_eq!(backoff(1), 2);
    assert_eq!(backoff(2), 4);
    assert_eq!(backoff(3), 8);
    assert_eq!(backoff(10), 1024);
    assert_eq!(backoff(63), 1u64 << 63);
}

#[test]
fn zero_retries_means_one_attempt() {
    let mut retry = Retry::new(0);
    assert_eq!(retry.attempts(), 1);
    assert!(retry.is_last_attempt());
    assert_eq!(retry.on_failure(), RetryDecision::GiveUp);
    assert_eq!(retry.attempts(), 1);
}

#[test]
fn failures_are_answered_by_the_schedule_then_given_up() {
    let mut retry = Retry::new(3);
    assert_eq!(retry.on_failure(), RetryDecision::Backoff { secs: 1 });
    assert_eq!(retry.on_failure(), RetryDecision::Backoff { secs: 2 });
    assert_eq!(retry.on_failure(), RetryDecision::Backoff { secs: 4 });
    assert_eq!(retry.attempts(), 4);
    assert_eq!(retry.on_failure(), RetryDecision::GiveUp);
    assert_eq!(retry.on_failure(), RetryDecision::GiveUp);
    assert_eq!(retry, Retry { max_retry: 3, attempt: 3 });
}

#[test]
fn checked_new_refuses_what_cannot_be_scheduled() {
    assert_eq!(Retry::checked_new(MAX_RETRY), Some(Retry { max_retry: 64, attempt: 0 }));
    assert_eq!(Retry::checked_new(MAX_RETRY + 1), None);
    assert_eq!(Retry::checked_new(u32::MAX), None);
}

#[test]
fn operation_that_fails_n_times_then_succeeds_returns_success() {
    for n in 0u32..6 {
        let slept: RefCell<Vec<u64>> = RefCell::new(Vec::new());
        let calls: RefCell<Vec<u32>> = RefCell::new(Vec::new());
        let run = retry_operation(
            n,
            |attempt| {
                calls.borrow_mut().push(attempt);
                if attempt < n {
                    Err(format!("attempt {} failed", attempt))
                } else {
                    Ok(attempt)
                }
            },
            |secs| {
                slept.borrow_mut().push(secs);
                secs
            },
        );
        assert_eq!(run.result, Ok(n));
        assert_eq!(run.attempts, n + 1);
        let expected_delays: Vec<u64> = (0..n).map(|k| 1u64 << k).collect();
        assert_eq!(*slept.borrow(), expected_delays);
        assert_eq!(run.slept, expected_delays);
        let expected_calls: Vec<u32> = (0..=n).collect();
        assert_eq!(*calls.borrow(), expected_calls);
    }
}

#[test]
fn operation_that_always_fails_surfaces_the_last_error() {
    let slept: RefCell<Vec<u64>> = RefCell::new(Vec::new());
    let run = retry_operation(
        3,
        |attempt| -> Result<(), String> { Err(format!("error {}", attempt)) },
        |secs| {
            slept.borrow_mut().push(secs);
            format!("slept {}", secs)
        },
    );
    assert_eq!(run.result, Err("error 3".to_string()));
    assert_eq!(run.attempts, 4);
    assert_eq!(run.slept, vec!["slept 1", "slept 2", "slept 4"]);
    assert_eq!(*slept.borrow(), vec![1, 2, 4]);
}

#[test]
fn success_on_the_first_attempt_never_sleeps() {
    let slept: RefCell<Vec<u64>> = RefCell::new(Vec::new());
    let run = retry_operation(5, |_| -> Result<&str, ()> { Ok("done") }, |secs| slept.borrow_mut().push(secs));
    assert_eq!(run.result, Ok("done"));
    assert_eq!(run.attempts, 1);
    assert!(run.slept.is_empty());
    assert!(slept.borrow().is_empty());
}

#[test]
fn failure_notice_counts_attempts_and_names_the_delay() {
    let mut retry = Retry::new(2);
    assert_eq!(
        failure_notice(&retry, "Server 'a (root@h:22)'", "timeout"),
        "Server 'a (root@h:22)' failed (attempt 1/3): timeout, retrying in 1s..."
    );
    retry.on_failure();
    assert_eq!(
        failure_notice(&retry, "op", "timeout"),
        "op failed (attempt 2/3): timeout, retrying in 2s..."
    );
    retry.on_failure();
    assert_eq!(failure_notice(&retry, "op", "refused"), "op failed after 3 attempts: refused");
}
