use snarkify_scroll_proving::http::HttpOutcome;
use snarkify_scroll_proving::retry::{is_transient, RetryPolicy, Step};

fn status(code: u16) -> HttpOutcome {
    HttpOutcome::Response { status: code, body: String::new() }
}

fn lost() -> HttpOutcome {
    HttpOutcome::Transport(String::from("connection reset"))
}

#[test]
fn policy_waits_from_half_the_bound_to_the_bound() {
    assert_eq!(
        RetryPolicy::new(3, 10),
        RetryPolicy { max_retries: 3, min_wait_sec: 5, max_wait_sec: 10 }
    );
    assert_eq!(
        RetryPolicy::new(0, 7),
        RetryPolicy { max_retries: 0, min_wait_sec: 3, max_wait_sec: 7 }
    );
    assert_eq!(
        RetryPolicy::new(1, 0),
        RetryPolicy { max_retries: 1, min_wait_sec: 0, max_wait_sec: 0 }
    );
}

#[test]
fn transient_outcomes() {
    assert!(is_transient(&lost()));
    assert!(is_transient(&status(500)));
    assert!(is_transient(&status(503)));
    assert!(is_transient(&status(599)));
    assert!(!is_transient(&status(499)));
    assert!(!is_transient(&status(600)));
    assert!(!is_transient(&status(200)));
    assert!(!is_transient(&status(204)));
    assert!(!is_transient(&status(404)));
    assert!(!is_transient(&status(429)));
}

#[test]
fn waits_double_up_to_the_longest() {
    let policy = RetryPolicy { max_retries: 10, min_wait_sec: 3, max_wait_sec: 20 };
    assert_eq!(policy.backoff_sec(0), 3);
    assert_eq!(policy.backoff_sec(1), 6);
    assert_eq!(policy.backoff_sec(2), 12);
    assert_eq!(policy.backoff_sec(3), 20);
    assert_eq!(policy.backoff_sec(4), 20);
    assert_eq!(policy.backoff_sec(u32::MAX), 20);
}

#[test]
fn waits_of_a_configured_policy() {
    let policy = RetryPolicy::new(5, 9);
    assert_eq!(policy.backoff_sec(0), 4);
    assert_eq!(policy.backoff_sec(1), 8);
    assert_eq!(policy.backoff_sec(2), 9);
    assert_eq!(policy.backoff_sec(3), 9);
}

#[test]
fn waits_at_the_edges() {
    let none = RetryPolicy { max_retries: 1, min_wait_sec: 0, max_wait_sec: 0 };
    assert_eq!(none.backoff_sec(0), 0);
    assert_eq!(none.backoff_sec(u32::MAX), 0);
    let from_zero = RetryPolicy { max_retries: 1, min_wait_sec: 0, max_wait_sec: 8 };
    assert_eq!(from_zero.backoff_sec(0), 0);
    assert_eq!(from_zero.backoff_sec(u32::MAX), 0);
    let upside_down = RetryPolicy { max_retries: 1, min_wait_sec: 9, max_wait_sec: 4 };
    assert_eq!(upside_down.backoff_sec(0), 4);
    assert_eq!(upside_down.backoff_sec(5), 4);
    let huge = RetryPolicy { max_retries: 1, min_wait_sec: u64::MAX / 2 + 1, max_wait_sec: u64::MAX };
    assert_eq!(huge.backoff_sec(0), u64::MAX / 2 + 1);
    assert_eq!(huge.backoff_sec(1), u64::MAX);
    let one = RetryPolicy { max_retries: 1, min_wait_sec: 1, max_wait_sec: u64::MAX };
    assert_eq!(one.backoff_sec(63), 1u64 << 63);
    assert_eq!(one.backoff_sec(64), u64::MAX);
}

#[test]
fn a_failure_worth_it_is_retried_within_the_budget() {
    let policy = RetryPolicy::new(2, 10);
    assert_eq!(policy.after_attempt(0, &status(503)), Step::Retry { wait_sec: 5 });
    assert_eq!(policy.after_attempt(1, &lost()), Step::Retry { wait_sec: 10 });
    assert_eq!(policy.after_attempt(2, &status(503)), Step::Finish);
    assert_eq!(policy.after_attempt(3, &lost()), Step::Finish);
}

#[test]
fn other_outcomes_end_the_request_at_once() {
    let policy = RetryPolicy::new(2, 10);
    assert_eq!(policy.after_attempt(0, &status(200)), Step::Finish);
    assert_eq!(policy.after_attempt(0, &status(204)), Step::Finish);
    assert_eq!(policy.after_attempt(0, &status(404)), Step::Finish);
    assert_eq!(policy.after_attempt(1, &status(202)), Step::Finish);
}

#[test]
fn no_retries_means_one_attempt() {
    let policy = RetryPolicy::new(0, 10);
    assert_eq!(policy.after_attempt(0, &status(503)), Step::Finish);
    assert_eq!(policy.after_attempt(0, &lost()), Step::Finish);
}
