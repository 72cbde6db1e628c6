//! Tests for the connection manager: the bounded retry loop, the backoff
//! schedule, and the classification of close reasons.

use ig_client::{ConnState, ConnectionManager, FailureAction, is_graceful_close};

#[test]
fn retry_ceiling_after_three_failures() {
    let mut m = ConnectionManager::new();
    assert!(m.should_attempt());

    m.begin_attempt();
    let a1 = m.record_failure("connection refused");
    assert_eq!(a1, FailureAction::Retry { delay_ms: 0 });
    assert!(m.should_attempt());

    m.begin_attempt();
    let a2 = m.record_failure("connection refused");
    assert_eq!(a2, FailureAction::Retry { delay_ms: 0 });
    assert!(m.should_attempt());

    m.begin_attempt();
    let a3 = m.record_failure("connection refused");
    assert_eq!(a3, FailureAction::GiveUp);

    // Terminal: no further attempt is allowed
    assert_eq!(m.state, ConnState::Failed);
    assert!(!m.should_attempt());
    assert_eq!(m.attempts, 3);
}

#[test]
fn backoff_delays_are_nondecreasing_and_start_at_zero() {
    let mut m = ConnectionManager::new();
    assert_eq!(m.next_delay_ms, 0);
    m.begin_attempt();
    m.record_failure("x");
    assert_eq!(m.next_delay_ms, 0);
    let before = m.next_delay_ms;
    m.begin_attempt();
    m.record_failure("x");
    // The schedule grows by the step times the failure index
    assert_eq!(m.next_delay_ms, 200);
    assert!(m.next_delay_ms >= before);
    assert!(m.next_delay_ms <= 5000);
}

#[test]
fn graceful_idle_close_is_success_not_failure() {
    let mut m = ConnectionManager::new();
    m.begin_attempt();
    let a = m.record_failure("Server closed: No more requests to fulfill (idle)");
    assert_eq!(a, FailureAction::GracefulStop);
    assert_eq!(m.state, ConnState::Disconnected);
    assert_eq!(m.attempts, 0);
    assert!(!m.should_attempt());
}

#[test]
fn successful_run_ends_disconnected() {
    let mut m = ConnectionManager::new();
    m.begin_attempt();
    m.record_success();
    assert_eq!(m.state, ConnState::Disconnected);
    assert!(!m.should_attempt());
}

#[test]
fn close_reason_classification() {
    assert!(is_graceful_close("No more requests to fulfill"));
    assert!(is_graceful_close("error: No more requests to fulfill."));
    assert!(!is_graceful_close("connection reset by peer"));
    assert!(!is_graceful_close(""));
    assert!(!is_graceful_close("no more requests to fulfill"));
}

#[test]
fn failed_attempts_after_graceful_close_are_not_counted() {
    let mut m = ConnectionManager::new();
    m.begin_attempt();
    let a = m.record_failure("x");
    assert_eq!(a, FailureAction::Retry { delay_ms: 0 });
    m.begin_attempt();
    let a = m.record_failure("the server said: No more requests to fulfill");
    assert_eq!(a, FailureAction::GracefulStop);
    assert_eq!(m.attempts, 1);
}
