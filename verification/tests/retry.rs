//! The network retry layer: the budget is spent exactly, and the first
//! success stops the retries at once.

use gt::errors::GtError;
use gt::network::{NetworkConfig, NetworkOps, RetryDecision};

fn ops(max_attempts: usize, delay_seconds: u64) -> NetworkOps {
    NetworkOps::new(NetworkConfig { max_attempts, delay_seconds, verbose: false })
}

/// Drives the retry layer over scripted outcomes and counts the
/// invocations of the underlying operation.
fn drive(ops: &NetworkOps, outcomes: &[bool]) -> (usize, bool) {
    let mut attempts = 0usize;
    loop {
        let succeeded = outcomes[attempts];
        attempts += 1;
        match ops.next_step(attempts, succeeded) {
            RetryDecision::Success => return (attempts, true),
            RetryDecision::GiveUp => return (attempts, false),
            RetryDecision::RetryAfterDelay { delay_seconds } => {
                assert_eq!(delay_seconds, ops.config.delay_seconds);
            }
        }
    }
}

#[test]
fn default_config_is_fifty_attempts_one_second_apart() {
    let config = NetworkConfig::default();
    assert_eq!(config.max_attempts, 50);
    assert_eq!(config.delay_seconds, 1);
    assert!(config.verbose);
}

#[test]
fn the_budget_is_spent_exactly_when_every_attempt_fails() {
    let ops = ops(5, 1);
    let outcomes = [false; 5];
    let (attempts, success) = drive(&ops, &outcomes);
    assert_eq!(attempts, 5);
    assert!(!success);
}

#[test]
fn the_first_successful_attempt_stops_the_retries() {
    let ops = ops(50, 1);
    let outcomes = [true; 1];
    let (attempts, success) = drive(&ops, &outcomes);
    assert_eq!(attempts, 1);
    assert!(success);
}

#[test]
fn a_late_success_is_still_a_success() {
    let ops = ops(4, 2);
    let outcomes = [false, false, true];
    let (attempts, success) = drive(&ops, &outcomes);
    assert_eq!(attempts, 3);
    assert!(success);
}

#[test]
fn a_success_on_the_last_attempt_counts() {
    let ops = ops(3, 1);
    let outcomes = [false, false, true];
    let (attempts, success) = drive(&ops, &outcomes);
    assert_eq!(attempts, 3);
    assert!(success);
}

#[test]
fn the_decision_after_a_failure_waits_the_configured_delay() {
    let ops = ops(10, 7);
    match ops.next_step(3, false) {
        RetryDecision::RetryAfterDelay { delay_seconds } => assert_eq!(delay_seconds, 7),
        other => panic!("expected a delay, got {:?}", other),
    }
}

#[test]
fn the_exhausted_error_names_the_budget() {
    let ops = ops(50, 1);
    match ops.exhausted_error() {
        GtError::NetworkTimeout { attempts } => assert_eq!(attempts, 50),
        other => panic!("expected a network timeout, got {:?}", other),
    }
}
