use std::time::Duration;

use taskvisor::config::{ConfigError, NonZeroU32};
use taskvisor::policies::{BackoffPolicy, JitterPolicy, RestartPolicy};
use taskvisor::task_defaults::TaskDefaults;

#[test]
fn default_contract_is_explicit_and_safe() {
    let defaults = TaskDefaults::default();

    assert!(matches!(defaults.restart(), RestartPolicy::OnFailure));
    assert_eq!(defaults.backoff().first(), Duration::from_millis(200));
    assert_eq!(f64::from_bits(defaults.backoff().factor_bits()), 2.0);
    assert_eq!(defaults.backoff().max(), Duration::from_secs(30));
    assert_eq!(defaults.backoff().jitter(), JitterPolicy::Equal);
    assert_eq!(defaults.timeout(), None);
    assert_eq!(defaults.max_retries(), None);
}

#[test]
fn builders_replace_each_default() {
    let backoff = BackoffPolicy::constant(Duration::from_secs(2));
    let retries = NonZeroU32::new(4).unwrap();
    let defaults = TaskDefaults::default()
        .with_restart(RestartPolicy::Never)
        .with_backoff(backoff)
        .with_timeout(Duration::from_secs(10))
        .with_max_retries(retries);

    assert!(matches!(defaults.restart(), RestartPolicy::Never));
    assert_eq!(defaults.backoff().first(), Duration::from_secs(2));
    assert_eq!(defaults.timeout(), Some(Duration::from_secs(10)));
    assert_eq!(defaults.max_retries(), Some(retries));
}

#[test]
fn optional_timeout_normalizes_zero_and_allows_none_to_clear() {
    for defaults in [
        TaskDefaults::default().with_timeout(Duration::ZERO),
        TaskDefaults::default().with_timeout(Some(Duration::ZERO)),
        TaskDefaults::default()
            .with_timeout(Duration::from_secs(1))
            .with_timeout(None),
    ] {
        assert_eq!(defaults.timeout(), None);
    }

    assert_eq!(
        TaskDefaults::default()
            .with_timeout(Duration::from_secs(1))
            .timeout(),
        Some(Duration::from_secs(1))
    );
}

#[test]
fn raw_zero_retry_limit_returns_a_clear_error() {
    assert_eq!(
        TaskDefaults::default().try_with_max_retries(0).unwrap_err(),
        ConfigError::Zero {
            field: "max_retries"
        }
    );
}

#[test]
fn raw_retry_limit_is_taken_over() {
    let defaults = TaskDefaults::default().try_with_max_retries(3).unwrap();
    assert_eq!(defaults.max_retries().unwrap().get(), 3);
    assert_eq!(defaults.timeout(), None);
    assert!(NonZeroU32::new(0).is_none());
}

#[test]
fn constant_backoff_never_grows() {
    let backoff = BackoffPolicy::constant(Duration::from_secs(2));
    assert_eq!(backoff.max(), Duration::from_secs(2));
    assert_eq!(f64::from_bits(backoff.factor_bits()), 1.0);
    assert_eq!(backoff.jitter(), JitterPolicy::Off);
}
