use ephemeral_resource::polling::connect_with_retry;
use ephemeral_resource::connector::{Connector, Directive};
use ephemeral_resource::retry::{ConnectError, ConnectionAttemptResult, RetryPolicy};
use std::cell::{Cell, RefCell};

type Attempt = ConnectionAttemptResult<String, String>;

/// Runs the connector against an attempt function that succeeds on the call
/// numbered `succeeds_on` (never, if that is zero). Returns the result, the
/// number of calls made, and the waits asked for.
fn poll(
    policy: RetryPolicy,
    succeeds_on: u32,
) -> (Result<String, ConnectError<String>>, u32, Vec<u64>) {
    let calls = Cell::new(0u32);
    let waits = RefCell::new(Vec::new());
    let target = String::from("http://localhost:3000");
    let result = connect_with_retry(
        &target,
        |endpoint: &String| -> Attempt {
            calls.set(calls.get() + 1);
            if calls.get() == succeeds_on {
                ConnectionAttemptResult::Success(format!("session {} at {}", calls.get(), endpoint))
            } else {
                ConnectionAttemptResult::Failure(format!("refused {}", calls.get()))
            }
        },
        |ms: u64| waits.borrow_mut().push(ms),
        policy,
    );
    (result, calls.get(), waits.into_inner())
}

#[test]
fn policy_needs_one_attempt() {
    assert!(RetryPolicy::new(0, 1000).is_none());
    assert!(RetryPolicy::new(0, 0).is_none());
    assert!(RetryPolicy::new(1, 0).is_some());
}

#[test]
fn policy_keeps_its_values() {
    let policy = RetryPolicy::new(15, 1000).unwrap();
    assert_eq!(policy.max_attempts(), 15);
    assert_eq!(policy.delay_ms(), 1000);
    let policy = RetryPolicy::new(u32::MAX, u64::MAX).unwrap();
    assert_eq!(policy.max_attempts(), u32::MAX);
    assert_eq!(policy.delay_ms(), u64::MAX);
}

#[test]
fn success_on_fifth_attempt_of_fifteen() {
    let policy = RetryPolicy::new(15, 1000).unwrap();
    let (result, calls, waits) = poll(policy, 5);
    assert_eq!(result, Ok(String::from("session 5 at http://localhost:3000")));
    assert_eq!(calls, 5);
    assert_eq!(waits, vec![1000, 1000, 1000, 1000]);
    assert!(waits.iter().sum::<u64>() >= 4000);
}

#[test]
fn three_failures_exhaust_a_policy_of_three() {
    let policy = RetryPolicy::new(3, 1000).unwrap();
    let (result, calls, waits) = poll(policy, 0);
    assert_eq!(
        result,
        Err(ConnectError::Exhausted { attempts: 3, last_cause: String::from("refused 3") })
    );
    assert_eq!(calls, 3);
    assert_eq!(waits, vec![1000, 1000, 1000]);
    assert!(waits.iter().sum::<u64>() >= 2000);
}

#[test]
fn first_success_needs_no_wait() {
    let policy = RetryPolicy::new(15, 1000).unwrap();
    let (result, calls, waits) = poll(policy, 1);
    assert_eq!(result, Ok(String::from("session 1 at http://localhost:3000")));
    assert_eq!(calls, 1);
    assert!(waits.is_empty());
}

#[test]
fn success_on_the_last_allowed_attempt() {
    let policy = RetryPolicy::new(4, 250).unwrap();
    let (result, calls, waits) = poll(policy, 4);
    assert_eq!(result, Ok(String::from("session 4 at http://localhost:3000")));
    assert_eq!(calls, 4);
    assert_eq!(waits, vec![250, 250, 250]);
}

#[test]
fn success_after_the_ceiling_is_never_reached() {
    let policy = RetryPolicy::new(4, 250).unwrap();
    let (result, calls, waits) = poll(policy, 5);
    assert_eq!(
        result,
        Err(ConnectError::Exhausted { attempts: 4, last_cause: String::from("refused 4") })
    );
    assert_eq!(calls, 4);
    assert_eq!(waits, vec![250, 250, 250, 250]);
}

#[test]
fn waits_for_success_on_each_attempt_number() {
    let policy = RetryPolicy::new(6, 70).unwrap();
    for k in 1..=6u32 {
        let (result, calls, waits) = poll(policy, k);
        assert!(result.is_ok());
        assert_eq!(calls, k);
        assert_eq!(waits.len() as u32, k - 1);
        assert_eq!(waits.iter().sum::<u64>(), u64::from(k - 1) * 70);
    }
}

#[test]
fn single_attempt_policy_gives_up_at_once() {
    let policy = RetryPolicy::new(1, 20).unwrap();
    let (result, calls, waits) = poll(policy, 0);
    assert_eq!(
        result,
        Err(ConnectError::Exhausted { attempts: 1, last_cause: String::from("refused 1") })
    );
    assert_eq!(calls, 1);
    assert_eq!(waits, vec![20]);
}

#[test]
fn zero_delay_still_retries() {
    let policy = RetryPolicy::new(3, 0).unwrap();
    let (result, calls, waits) = poll(policy, 3);
    assert!(result.is_ok());
    assert_eq!(calls, 3);
    assert_eq!(waits, vec![0, 0]);
}

#[test]
fn connector_starts_at_the_first_attempt() {
    let policy = RetryPolicy::new(15, 1000).unwrap();
    let connector = Connector::new(policy);
    assert_eq!(connector.attempt_number(), 1);
    assert_eq!(connector.policy(), policy);
}

#[test]
fn connector_hands_a_connection_through() {
    let policy = RetryPolicy::new(15, 1000).unwrap();
    let connector = Connector::new(policy);
    let directive = connector.record::<u8, String>(ConnectionAttemptResult::Success(42));
    assert!(matches!(directive, Directive::Connected(42)));
}

#[test]
fn connector_retries_after_a_failure() {
    let policy = RetryPolicy::new(2, 1000).unwrap();
    let connector = Connector::new(policy);
    let directive = connector.record::<u8, String>(ConnectionAttemptResult::Failure(String::from("a")));
    match directive {
        Directive::Retry { wait_ms, cause, connector } => {
            assert_eq!(wait_ms, 1000);
            assert_eq!(cause, "a");
            assert_eq!(connector.attempt_number(), 2);
            assert_eq!(connector.policy(), policy);
        }
        other => panic!("expected a retry, got {:?}", other),
    }
}

#[test]
fn connector_gives_up_after_the_last_failure() {
    let policy = RetryPolicy::new(2, 1000).unwrap();
    let connector = Connector::new(policy);
    let next = match connector.record::<u8, String>(ConnectionAttemptResult::Failure(String::from("a"))) {
        Directive::Retry { connector, .. } => connector,
        other => panic!("expected a retry, got {:?}", other),
    };
    match next.record::<u8, String>(ConnectionAttemptResult::Failure(String::from("b"))) {
        Directive::GiveUp { wait_ms, error } => {
            assert_eq!(wait_ms, 1000);
            assert_eq!(error, ConnectError::Exhausted { attempts: 2, last_cause: String::from("b") });
        }
        other => panic!("expected the end, got {:?}", other),
    }
}

#[test]
fn connector_connects_on_the_last_attempt() {
    let policy = RetryPolicy::new(2, 1000).unwrap();
    let connector = Connector::new(policy);
    let next = match connector.record::<u8, String>(ConnectionAttemptResult::Failure(String::from("a"))) {
        Directive::Retry { connector, .. } => connector,
        other => panic!("expected a retry, got {:?}", other),
    };
    let directive = next.record::<u8, String>(ConnectionAttemptResult::Success(7));
    assert!(matches!(directive, Directive::Connected(7)));
}

#[test]
fn connector_reaches_the_attempt_ceiling_of_u32() {
    let policy = RetryPolicy::new(u32::MAX, 1).unwrap();
    let mut connector = Connector::new(policy);
    for expected in 1..=1000u32 {
        assert_eq!(connector.attempt_number(), expected);
        connector = match connector.record::<u8, u8>(ConnectionAttemptResult::Failure(0)) {
            Directive::Retry { connector, .. } => connector,
            other => panic!("expected a retry, got {:?}", other),
        };
    }
}
