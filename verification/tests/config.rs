use log_tracing_layer::config::{
    Limits, BACKOFF_STEP_MILLIS, MAX_BATCH_DURATION_SECS, MAX_BATCH_SIZE, MAX_RETRIES,
};

#[test]
fn default_thresholds() {
    let limits = Limits::default();
    assert_eq!(limits.max_batch_size(), 1000);
    assert_eq!(limits.max_batch_age_secs(), 5);
    assert_eq!(limits.max_retries(), 3);
    assert_eq!(MAX_BATCH_SIZE, 1000);
    assert_eq!(MAX_BATCH_DURATION_SECS, 5);
    assert_eq!(MAX_RETRIES, 3);
    assert_eq!(BACKOFF_STEP_MILLIS, 100);
}

#[test]
fn given_thresholds_are_kept() {
    let limits = Limits::new(7, 11, 13).unwrap();
    assert_eq!(limits.max_batch_size(), 7);
    assert_eq!(limits.max_batch_age_secs(), 11);
    assert_eq!(limits.max_retries(), 13);
}

#[test]
fn a_batch_size_of_zero_is_refused() {
    assert!(Limits::new(0, 5, 3).is_none());
}

#[test]
fn an_age_limit_below_a_second_is_refused() {
    assert!(Limits::new(10, 0, 3).is_none());
    assert!(Limits::new(10, -1, 3).is_none());
    assert!(Limits::new(10, i64::MIN, 3).is_none());
    assert!(Limits::new(0, 0, 3).is_none());
}

#[test]
fn a_batch_size_and_an_age_of_one_are_the_least() {
    let limits = Limits::new(1, 1, 0).unwrap();
    assert_eq!(limits.max_batch_size(), 1);
    assert_eq!(limits.max_batch_age_secs(), 1);
    assert_eq!(limits.max_retries(), 0);
}

#[test]
fn extreme_thresholds_are_kept() {
    let limits = Limits::new(usize::MAX, i64::MAX, u8::MAX).unwrap();
    assert_eq!(limits.max_batch_size(), usize::MAX);
    assert_eq!(limits.max_batch_age_secs(), i64::MAX);
    assert_eq!(limits.max_retries(), u8::MAX);
}
