use myst_clock::error::ClockError;
use myst_clock::guard::{check_overflow, checked_advance};
use myst_clock::state::{MICRO_IN_SECOND, NANO_IN_SECOND};

#[test]
fn guard_passes_when_nothing_overflowed() {
    assert_eq!(check_overflow(false), Ok(()));
}

#[test]
fn guard_reports_an_overflow() {
    assert_eq!(check_overflow(true), Err(ClockError::ClockOverflow));
}

#[test]
fn advance_adds_the_interval() {
    assert_eq!(checked_advance(500_000_000_000, 1_000_000_000), Ok(501_000_000_000));
    assert_eq!(checked_advance(-10, 3), Ok(-7));
    assert_eq!(checked_advance(-10, 10), Ok(0));
    assert_eq!(checked_advance(0, 0), Ok(0));
    assert_eq!(checked_advance(i64::MIN, 0), Ok(i64::MIN));
    assert_eq!(checked_advance(i64::MAX, 0), Ok(i64::MAX));
}

#[test]
fn advance_reaches_the_maximum() {
    assert_eq!(checked_advance(i64::MAX - 1, 1), Ok(i64::MAX));
    assert_eq!(checked_advance(0, 9_223_372_036_854_775_807), Ok(i64::MAX));
    assert_eq!(checked_advance(i64::MIN, u64::MAX), Ok(i64::MAX));
}

#[test]
fn advance_accepts_an_interval_wider_than_the_signed_range() {
    assert_eq!(checked_advance(-5, 9_223_372_036_854_775_809), Ok(9_223_372_036_854_775_804));
    assert_eq!(checked_advance(i64::MIN, 9_223_372_036_854_775_808), Ok(0));
    assert_eq!(checked_advance(-1, 9_223_372_036_854_775_808), Ok(i64::MAX));
}

#[test]
fn advance_refuses_one_past_the_maximum() {
    assert_eq!(checked_advance(i64::MAX, 1), Err(ClockError::ClockOverflow));
    assert_eq!(checked_advance(1, 9_223_372_036_854_775_807), Err(ClockError::ClockOverflow));
    assert_eq!(checked_advance(0, 9_223_372_036_854_775_808), Err(ClockError::ClockOverflow));
    assert_eq!(checked_advance(i64::MIN + 1, u64::MAX), Err(ClockError::ClockOverflow));
    assert_eq!(checked_advance(i64::MAX, u64::MAX), Err(ClockError::ClockOverflow));
}

#[test]
fn unit_constants() {
    assert_eq!(NANO_IN_SECOND, 1_000_000_000);
    assert_eq!(MICRO_IN_SECOND, 1_000_000);
    assert_eq!(NANO_IN_SECOND / MICRO_IN_SECOND, 1_000);
}

#[test]
fn errors_are_distinct() {
    let all = vec![
        ClockError::InvalidInterval,
        ClockError::AlreadyInitialized,
        ClockError::NotInitialized,
        ClockError::ClockOverflow,
    ];
    let mut i: usize = 0;
    while i < all.len() {
        let mut j: usize = 0;
        while j < all.len() {
            assert_eq!(all[i] == all[j], i == j);
            j += 1;
        }
        i += 1;
    }
}
