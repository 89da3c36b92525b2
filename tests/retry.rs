use chart_of_accounts::retry::RetrySettings;

const MAX_BACKOFF_MS: u64 = 60_000;

fn test_settings(jitter_pct: u8) -> RetrySettings {
    RetrySettings {
        n_attempts: Some(10),
        n_warn_attempts: Some(3),
        min_backoff: 100,
        max_backoff: 60_000,
        backoff_jitter_pct: jitter_pct,
    }
}

fn get_delay_ms(settings: &RetrySettings, attempt: u32) -> u64 {
    settings.calculate_backoff(attempt)
}

#[test]
fn exponential_backoff_grows_correctly() {
    let settings = test_settings(0);
    let expected_delays = [100, 200, 400, 800];
    for (attempt, &expected) in (1..=4).zip(&expected_delays) {
        assert_eq!(get_delay_ms(&settings, attempt), expected);
    }
}

#[test]
fn zero_attempt_handled_correctly() {
    let settings = test_settings(0);
    assert_eq!(get_delay_ms(&settings, 0), 100);
}

#[test]
fn high_attempts_capped_at_max_backoff() {
    let settings = test_settings(0);
    for high_attempt in [20, 31, 100, 1000, u32::MAX] {
        assert_eq!(get_delay_ms(&settings, high_attempt), MAX_BACKOFF_MS);
    }
}

#[test]
fn attempts_capped_at_30() {
    let settings = test_settings(0);
    let delay31 = get_delay_ms(&settings, 31);
    let delay100 = get_delay_ms(&settings, 100);
    assert_eq!(delay31, delay100, "Both should be capped at attempt 30");
    assert_eq!(delay31, MAX_BACKOFF_MS);
}

#[test]
fn jitter_adds_randomness() {
    let settings = test_settings(20);
    let delay = get_delay_ms(&settings, 1);
    assert!(delay >= 80 && delay <= 120);
}

#[test]
fn jitter_never_negative() {
    let settings = test_settings(20);
    for _ in 0..10 {
        let delay = get_delay_ms(&settings, 1);
        assert!(delay < u64::MAX, "Delay should be reasonable, got {}ms", delay);
    }
}

#[test]
fn deterministic_without_jitter() {
    let settings = test_settings(0);
    assert_eq!(get_delay_ms(&settings, 5), get_delay_ms(&settings, 5));
}

#[test]
fn repeat_indefinitely_has_no_limits() {
    let s = RetrySettings::repeat_indefinitely();
    assert!(s.n_attempts.is_none());
    assert!(s.n_warn_attempts.is_none());
    assert_eq!(s.min_backoff, 1000);
    assert_eq!(s.backoff_jitter_pct, 20);
    let d = RetrySettings::default();
    assert_eq!(d.n_attempts, Some(30));
    assert_eq!(d.max_backoff, 60 * 60 * 24 * 30 * 1000);
}

#[test]
fn saturating_multiplication_caps() {
    let s = RetrySettings {
        n_attempts: None,
        n_warn_attempts: None,
        min_backoff: u64::MAX / 2,
        max_backoff: u64::MAX,
        backoff_jitter_pct: 0,
    };
    assert_eq!(s.calculate_backoff(3), u64::MAX);
}
