use live_reload::millis_since_epoch;

#[test]
fn reading_before_epoch_is_zero() {
    assert_eq!(millis_since_epoch(None), 0);
}

#[test]
fn readings_in_range_are_kept() {
    assert_eq!(millis_since_epoch(Some(0)), 0);
    assert_eq!(millis_since_epoch(Some(1)), 1);
    assert_eq!(millis_since_epoch(Some(1_700_000_000_000)), 1_700_000_000_000);
    assert_eq!(millis_since_epoch(Some(u64::MAX as u128)), u64::MAX);
}

#[test]
fn readings_past_range_saturate() {
    assert_eq!(millis_since_epoch(Some(u64::MAX as u128 + 1)), u64::MAX);
    assert_eq!(millis_since_epoch(Some(u128::MAX)), u64::MAX);
}
