use enclave_time::{
    Duration, RawReading, SystemTime, SystemTimeError, UntrustedTimeAccess,
};

#[test]
fn epoch_identity() {
    let epoch = SystemTime::unix_epoch();
    assert_eq!(epoch.duration_since(epoch), Ok(Duration::zero()));
    assert_eq!(epoch.get_tup(), (0, 0));
}

#[test]
fn drift_error_carries_the_overshoot() {
    // self is at the epoch, earlier is five seconds past it: differencing
    // fails, carrying the five seconds by which "earlier" was later.
    let at_epoch = SystemTime::unix_epoch();
    let earlier = at_epoch.checked_add(Duration::from_secs(5)).unwrap();
    assert_eq!(
        at_epoch.duration_since(earlier),
        Err(SystemTimeError { amount: Duration::from_secs(5) })
    );
    assert_eq!(
        at_epoch.duration_since(earlier).unwrap_err().duration(),
        Duration::from_secs(5)
    );
}

#[test]
fn duration_since_forward_succeeds() {
    let epoch = SystemTime::unix_epoch();
    let later = epoch.checked_add(Duration::new(7, 300_000_000)).unwrap();
    assert_eq!(later.duration_since(epoch), Ok(Duration::new(7, 300_000_000)));
}

#[test]
fn checked_add_overflow_boundary() {
    let access = UntrustedTimeAccess::grant();
    let near_max = SystemTime::now(&access, RawReading::new(i64::MAX, 999_999_998));
    assert_eq!(near_max.checked_add(Duration::new(0, 1)).unwrap().get_tup(), (i64::MAX, 999_999_999));
    assert_eq!(near_max.checked_add(Duration::new(0, 2)), None);
    assert_eq!(near_max.checked_add(Duration::from_secs(u64::MAX)), None);
}

#[test]
fn checked_sub_crosses_the_epoch() {
    let epoch = SystemTime::unix_epoch();
    let before = epoch.checked_sub(Duration::new(1, 500_000_000)).unwrap();
    assert_eq!(before.get_tup(), (-2, 500_000_000));
    assert_eq!(epoch.duration_since(before), Ok(Duration::new(1, 500_000_000)));
}

#[test]
fn wall_checked_sub_underflow_is_absent() {
    let access = UntrustedTimeAccess::grant();
    let near_min = SystemTime::now(&access, RawReading::new(i64::MIN, 0));
    assert_eq!(near_min.checked_sub(Duration::new(0, 1)), None);
}

#[test]
fn now_is_not_corrected() {
    // The wall clock hands the host readings through unmodified even when
    // they go backwards.
    let access = UntrustedTimeAccess::grant();
    let first = SystemTime::now(&access, RawReading::new(1000, 0));
    let second = SystemTime::now(&access, RawReading::new(900, 0));
    assert_eq!(first.get_tup(), (1000, 0));
    assert_eq!(second.get_tup(), (900, 0));
    assert_eq!(first.duration_since(second), Ok(Duration::from_secs(100)));
}

#[test]
fn elapsed_follows_the_host_reading() {
    let access = UntrustedTimeAccess::grant();
    let t = SystemTime::now(&access, RawReading::new(500, 0));
    assert_eq!(t.elapsed(&access, RawReading::new(503, 0)), Ok(Duration::from_secs(3)));
    assert_eq!(
        t.elapsed(&access, RawReading::new(498, 0)),
        Err(SystemTimeError { amount: Duration::from_secs(2) })
    );
}

#[test]
fn wall_fatal_variants_agree_with_the_checked_ones() {
    let epoch = SystemTime::unix_epoch();
    let d = Duration::new(11, 250_000_000);
    assert_eq!(epoch.add_duration(d), epoch.checked_add(d).unwrap());
    assert_eq!(epoch.sub_duration(d), epoch.checked_sub(d).unwrap());
}

#[test]
fn wall_ordering_matches_the_views() {
    let epoch = SystemTime::unix_epoch();
    let before = epoch.checked_sub(Duration::from_secs(1)).unwrap();
    let after = epoch.checked_add(Duration::from_secs(1)).unwrap();
    assert!(before.le(&epoch));
    assert!(epoch.le(&after));
    assert!(!after.le(&before));
}

#[test]
fn error_description_names_the_misordering() {
    let e = SystemTimeError { amount: Duration::zero() };
    assert_eq!(e.description(), "other time was not earlier than self");
}
