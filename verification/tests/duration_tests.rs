use enclave_time::{Duration, NANOS_PER_SEC};

#[test]
fn new_keeps_parts() {
    let d = Duration::new(7, 250_000_000);
    assert_eq!(d.as_secs(), 7);
    assert_eq!(d.subsec_nanos(), 250_000_000);
}

#[test]
fn zero_is_zero() {
    let z = Duration::zero();
    assert_eq!(z.as_secs(), 0);
    assert_eq!(z.subsec_nanos(), 0);
    assert_eq!(z, Duration::new(0, 0));
}

#[test]
fn from_secs_has_no_fraction() {
    let d = Duration::from_secs(42);
    assert_eq!(d.as_secs(), 42);
    assert_eq!(d.subsec_nanos(), 0);
}

#[test]
fn checked_add_simple() {
    let a = Duration::new(1, 200_000_000);
    let b = Duration::new(2, 300_000_000);
    assert_eq!(a.checked_add(&b), Some(Duration::new(3, 500_000_000)));
}

#[test]
fn checked_add_carries_the_fraction() {
    let a = Duration::new(1, 800_000_000);
    let b = Duration::new(2, 700_000_000);
    assert_eq!(a.checked_add(&b), Some(Duration::new(4, 500_000_000)));
}

#[test]
fn checked_add_overflow_is_absent() {
    let a = Duration::new(u64::MAX, 999_999_999);
    let b = Duration::new(0, 1);
    assert_eq!(a.checked_add(&b), None);
    let c = Duration::new(u64::MAX, 0);
    assert_eq!(c.checked_add(&Duration::from_secs(1)), None);
}

#[test]
fn checked_add_at_the_boundary_is_present() {
    let a = Duration::new(u64::MAX, 0);
    let b = Duration::new(0, 999_999_999);
    assert_eq!(a.checked_add(&b), Some(Duration::new(u64::MAX, 999_999_999)));
}

#[test]
fn checked_sub_simple() {
    let a = Duration::new(5, 500_000_000);
    let b = Duration::new(2, 100_000_000);
    assert_eq!(a.checked_sub(&b), Some(Duration::new(3, 400_000_000)));
}

#[test]
fn checked_sub_borrows_from_the_seconds() {
    let a = Duration::new(5, 100_000_000);
    let b = Duration::new(2, 600_000_000);
    assert_eq!(a.checked_sub(&b), Some(Duration::new(2, 500_000_000)));
}

#[test]
fn checked_sub_underflow_is_absent() {
    let a = Duration::new(1, 0);
    let b = Duration::new(1, 1);
    assert_eq!(a.checked_sub(&b), None);
    assert_eq!(Duration::zero().checked_sub(&Duration::new(0, 1)), None);
}

#[test]
fn checked_sub_of_equal_magnitudes_is_zero() {
    let a = Duration::new(9, 123_456_789);
    assert_eq!(a.checked_sub(&a), Some(Duration::zero()));
}

#[test]
fn nanos_per_sec_is_one_billion() {
    assert_eq!(NANOS_PER_SEC, 1_000_000_000);
}
