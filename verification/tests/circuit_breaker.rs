use zally_wallet::circuit_breaker::{CircuitBreaker, CircuitBreakerConfig, CircuitBreakerState};

const MILLI: u128 = 1_000_000;

#[test]
fn closed_breaker_records_failures_up_to_threshold() {
    let mut breaker = CircuitBreaker::new(CircuitBreakerConfig {
        failure_threshold: 3,
        cooldown_nanos: 10 * MILLI,
    });
    assert!(breaker.allow_call(0));
    breaker.record_failure(0);
    breaker.record_failure(0);
    assert!(matches!(
        breaker.state(),
        CircuitBreakerState::Closed {
            consecutive_failures: 2
        }
    ));
    breaker.record_failure(0);
    assert!(matches!(breaker.state(), CircuitBreakerState::Open));
    assert!(!breaker.allow_call(0), "open breaker must reject calls");
}

#[test]
fn success_resets_closed_counter() {
    let mut breaker = CircuitBreaker::new(CircuitBreakerConfig::default());
    breaker.record_failure(0);
    breaker.record_failure(0);
    breaker.record_success();
    assert!(matches!(
        breaker.state(),
        CircuitBreakerState::Closed {
            consecutive_failures: 0
        }
    ));
}

#[test]
fn cooldown_transitions_open_to_half_open() {
    let mut breaker = CircuitBreaker::new(CircuitBreakerConfig {
        failure_threshold: 1,
        cooldown_nanos: MILLI,
    });
    breaker.record_failure(0);
    assert!(matches!(breaker.state(), CircuitBreakerState::Open));
    assert!(
        breaker.allow_call(5 * MILLI),
        "expired cooldown must allow a probe"
    );
    assert!(matches!(breaker.state(), CircuitBreakerState::HalfOpen));
}

#[test]
fn half_open_failure_reopens() {
    let mut breaker = CircuitBreaker::new(CircuitBreakerConfig {
        failure_threshold: 1,
        cooldown_nanos: MILLI,
    });
    breaker.record_failure(0);
    assert!(breaker.allow_call(5 * MILLI));
    breaker.record_failure(5 * MILLI);
    assert!(matches!(breaker.state(), CircuitBreakerState::Open));
}

#[test]
fn half_open_success_closes() {
    let mut breaker = CircuitBreaker::new(CircuitBreakerConfig {
        failure_threshold: 1,
        cooldown_nanos: MILLI,
    });
    breaker.record_failure(0);
    assert!(breaker.allow_call(5 * MILLI));
    breaker.record_success();
    assert!(matches!(
        breaker.state(),
        CircuitBreakerState::Closed {
            consecutive_failures: 0
        }
    ));
}

#[test]
fn an_open_breaker_refuses_right_up_to_its_cooldown() {
    let mut breaker = CircuitBreaker::new(CircuitBreakerConfig {
        failure_threshold: 1,
        cooldown_nanos: 10,
    });
    breaker.record_failure(100);
    assert!(!breaker.allow_call(109));
    assert!(breaker.allow_call(110));
    assert_eq!(breaker.state(), CircuitBreakerState::HalfOpen);
    assert!(!breaker.allow_call(110), "one probe at a time");
}

#[test]
fn one_probe_until_its_outcome_is_recorded() {
    let mut breaker = CircuitBreaker::new(CircuitBreakerConfig {
        failure_threshold: 1,
        cooldown_nanos: 10,
    });
    breaker.record_failure(0);
    assert!(breaker.allow_call(10));
    for now in [10, 20, 1_000_000] {
        assert!(!breaker.allow_call(now));
        assert_eq!(breaker.state(), CircuitBreakerState::HalfOpen);
    }
    breaker.record_failure(1_000_000);
    assert!(!breaker.allow_call(1_000_009));
    assert!(breaker.allow_call(1_000_010));
    breaker.record_success();
    assert!(breaker.allow_call(1_000_010));
    assert!(breaker.allow_call(1_000_010));
}

#[test]
fn default_and_never_tripping_configurations() {
    let config = CircuitBreakerConfig::default();
    assert_eq!(config.failure_threshold, 5);
    assert_eq!(config.cooldown_nanos, 60_000 * MILLI);
    let mut breaker = CircuitBreaker::new(CircuitBreakerConfig::never_trip());
    assert_eq!(breaker.config(), CircuitBreakerConfig::never_trip());
    for _ in 0..1_000 {
        breaker.record_failure(0);
    }
    assert_eq!(
        breaker.state(),
        CircuitBreakerState::Closed {
            consecutive_failures: 1_000
        }
    );
}
