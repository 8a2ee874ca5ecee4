use backend::timeout::{Millis, Timeout};
use std::time::Duration;

#[test]
fn integer_sentinels_and_counts() {
    assert_eq!(Timeout::from(-1), Timeout::Default);
    assert_eq!(Timeout::from(0), Timeout::Never);
    assert_eq!(Timeout::from(5000), Timeout::Milliseconds(5000));
}

#[test]
fn other_negative_integers_pass_through() {
    assert_eq!(Timeout::from(-2), Timeout::Milliseconds(-2));
    assert_eq!(Timeout::from(i32::MIN), Timeout::Milliseconds(i32::MIN));
    assert_eq!(Timeout::from(i32::MAX), Timeout::Milliseconds(i32::MAX));
}

#[test]
fn duration_zero_never_expires() {
    assert_eq!(Timeout::from_millis(Duration::from_millis(0).as_millis()), Timeout::Never);
}

#[test]
fn duration_in_range_becomes_milliseconds() {
    assert_eq!(
        Timeout::from_millis(Duration::from_millis(2000).as_millis()),
        Timeout::Milliseconds(2000)
    );
    assert_eq!(Timeout::from_millis(i32::MAX as u128), Timeout::Milliseconds(i32::MAX));
}

#[test]
fn duration_too_long_falls_back_to_default() {
    assert_eq!(Timeout::from_millis(i32::MAX as u128 + 1), Timeout::Default);
    assert_eq!(
        Timeout::from_millis(Duration::from_millis(u64::MAX).as_millis()),
        Timeout::Default
    );
    assert_eq!(Timeout::from_millis(Duration::MAX.as_millis()), Timeout::Default);
}

#[test]
fn millis_converts_like_from_millis() {
    assert_eq!(Timeout::from(Millis(0)), Timeout::Never);
    assert_eq!(Timeout::from(Millis(2000)), Timeout::Milliseconds(2000));
    assert_eq!(Timeout::from(Millis(u128::MAX)), Timeout::Default);
}
