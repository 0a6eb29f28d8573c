use zally_wallet::circuit_breaker::{CircuitBreaker, CircuitBreakerConfig, CircuitBreakerState};
use zally_wallet::error::WalletError;
use zally_wallet::retry::{CallEnd, GuardedCall, RetryLoop, RetryPolicy, RetryStep};

#[derive(Debug)]
enum FakeError {
    Retryable(String),
    Permanent(String),
}

/// Runs an operation under `policy`; gives its result, its attempts, and the waits between them.
fn run_with_retry(
    policy: RetryPolicy,
    mut operation: impl FnMut(u32) -> Result<u32, FakeError>,
) -> (Result<u32, FakeError>, u32, Vec<u32>) {
    let mut retry = RetryLoop::start(policy);
    let mut attempts = 0;
    let mut waits = Vec::new();
    loop {
        let result = operation(attempts);
        attempts += 1;
        let error = match result {
            Ok(value) => return (Ok(value), attempts, waits),
            Err(error) => error,
        };
        let retryable = matches!(error, FakeError::Retryable(_));
        match retry.after_failure(retryable) {
            (RetryStep::Sleep { delay_ms }, Some(next)) => {
                waits.push(delay_ms);
                retry = next;
            }
            _ => return (Err(error), attempts, waits),
        }
    }
}

#[test]
fn with_retry_returns_immediately_on_success() {
    let (outcome, attempts, waits) = run_with_retry(RetryPolicy::default(), |_| Ok(42));
    assert!(matches!(outcome, Ok(42)));
    assert_eq!(attempts, 1);
    assert!(waits.is_empty());
}

#[test]
fn with_retry_retries_retryable_errors_then_succeeds() {
    let policy = RetryPolicy {
        max_attempts: 5,
        initial_backoff_ms: 1,
        max_backoff_ms: 1,
        backoff_multiplier_x10: 10,
    };
    let (outcome, attempts, waits) = run_with_retry(policy, |attempt| {
        if attempt < 2 {
            Err(FakeError::Retryable("flaky".into()))
        } else {
            Ok(7)
        }
    });
    assert!(matches!(outcome, Ok(7)));
    assert_eq!(attempts, 3, "two failures then success");
    assert_eq!(waits, vec![1, 1]);
}

#[test]
fn with_retry_does_not_retry_permanent_errors() {
    let (outcome, attempts, _) = run_with_retry(RetryPolicy::default(), |_| {
        Err(FakeError::Permanent("config".into()))
    });
    assert!(matches!(outcome, Err(FakeError::Permanent(_))));
    assert_eq!(attempts, 1);
}

#[test]
fn with_retry_gives_up_after_max_attempts() {
    let (outcome, attempts, _) = run_with_retry(RetryPolicy::linear(3, 1), |_| {
        Err(FakeError::Retryable("flaky".into()))
    });
    assert!(matches!(outcome, Err(FakeError::Retryable(_))));
    assert_eq!(attempts, 3);
}

#[test]
fn default_backoff_doubles_up_to_its_cap() {
    let policy = RetryPolicy {
        max_attempts: 8,
        ..RetryPolicy::default()
    };
    let (_, attempts, waits) =
        run_with_retry(policy, |_| Err(FakeError::Retryable("flaky".into())));
    assert_eq!(attempts, 8);
    assert_eq!(waits, vec![100, 200, 400, 800, 1_600, 2_000, 2_000]);
}

#[test]
fn policies_have_their_documented_values() {
    assert_eq!(RetryPolicy::default().max_attempts, 3);
    assert_eq!(RetryPolicy::none().max_attempts, 1);
    let (_, attempts, _) = run_with_retry(RetryPolicy::none(), |_| {
        Err(FakeError::Retryable("flaky".into()))
    });
    assert_eq!(attempts, 1);
    let zero_attempts = RetryPolicy::linear(0, 5);
    let (_, attempts, _) =
        run_with_retry(zero_attempts, |_| Err(FakeError::Retryable("flaky".into())));
    assert_eq!(attempts, 1, "the initial call always happens");
}

#[test]
fn a_guarded_call_counts_once_on_the_breaker() {
    let mut breaker = CircuitBreaker::new(CircuitBreakerConfig {
        failure_threshold: 2,
        cooldown_nanos: 10,
    });
    for _ in 0..2 {
        let call = GuardedCall::begin(&mut breaker, RetryPolicy::default(), "op", 0)
            .expect("closed breaker admits");
        call.finish(&mut breaker, CallEnd::Failed { retryable: true }, 0);
    }
    assert_eq!(breaker.state(), CircuitBreakerState::Open);
    assert!(matches!(
        GuardedCall::begin(&mut breaker, RetryPolicy::default(), "op", 5),
        Err(WalletError::CircuitBroken { operation: "op" })
    ));
    let probe = GuardedCall::begin(&mut breaker, RetryPolicy::default(), "op", 10)
        .expect("cooled breaker probes");
    probe.finish(&mut breaker, CallEnd::Succeeded, 10);
    assert_eq!(
        breaker.state(),
        CircuitBreakerState::Closed {
            consecutive_failures: 0
        }
    );
}

#[test]
fn a_permanent_failure_does_not_trip_the_breaker() {
    let mut breaker = CircuitBreaker::new(CircuitBreakerConfig {
        failure_threshold: 1,
        cooldown_nanos: 10,
    });
    let call = GuardedCall::begin(&mut breaker, RetryPolicy::default(), "op", 0)
        .expect("closed breaker admits");
    call.finish(&mut breaker, CallEnd::Failed { retryable: false }, 0);
    assert_eq!(
        breaker.state(),
        CircuitBreakerState::Closed {
            consecutive_failures: 0
        }
    );
}

#[test]
fn the_cap_holds_from_the_first_retry_on() {
    let policy = RetryPolicy {
        max_attempts: 3,
        initial_backoff_ms: 500,
        max_backoff_ms: 100,
        backoff_multiplier_x10: 20,
    };
    let (_, attempts, waits) =
        run_with_retry(policy, |_| Err(FakeError::Retryable("flaky".into())));
    assert_eq!(attempts, 3);
    assert_eq!(waits, vec![100, 100]);
}

#[test]
fn an_abandoned_probe_counts_as_a_failure() {
    let mut breaker = CircuitBreaker::new(CircuitBreakerConfig {
        failure_threshold: 1,
        cooldown_nanos: 10,
    });
    let early = GuardedCall::begin(&mut breaker, RetryPolicy::default(), "op", 0)
        .expect("closed breaker admits");
    breaker.record_failure(0);
    let probe = GuardedCall::begin(&mut breaker, RetryPolicy::default(), "op", 10)
        .expect("cooled breaker probes");
    assert!(GuardedCall::begin(&mut breaker, RetryPolicy::default(), "op", 10).is_err());
    early.finish(&mut breaker, CallEnd::Abandoned, 11);
    assert_eq!(
        breaker.state(),
        CircuitBreakerState::HalfOpen,
        "only the probe itself settles the breaker"
    );
    probe.finish(&mut breaker, CallEnd::Abandoned, 12);
    assert_eq!(breaker.state(), CircuitBreakerState::Open);
    assert!(GuardedCall::begin(&mut breaker, RetryPolicy::default(), "op", 21).is_err());
    let next = GuardedCall::begin(&mut breaker, RetryPolicy::default(), "op", 22)
        .expect("another cooldown leads to another probe");
    assert_eq!(next.retry().after_failure(false).0, RetryStep::GiveUp);
    next.finish(&mut breaker, CallEnd::Succeeded, 23);

    let call = GuardedCall::begin(&mut breaker, RetryPolicy::default(), "op", 23)
        .expect("closed breaker admits");
    call.finish(&mut breaker, CallEnd::Abandoned, 24);
    assert_eq!(
        breaker.state(),
        CircuitBreakerState::Closed {
            consecutive_failures: 0
        }
    );
}
