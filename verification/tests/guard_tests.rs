use enclave_time::{Instant, MonotonicityGuard, RawReading, UntrustedTimeAccess};

#[test]
fn fresh_guard_starts_at_the_sentinel() {
    let g = MonotonicityGuard::new(false);
    assert_eq!(g.watermark, RawReading::zero());
    assert!(!g.platform_monotonic);
}

#[test]
fn backward_jumps_are_repaired() {
    // Simulated backward jumps in the host's raw readings: the corrected
    // output sequence is non-decreasing.
    let mut g = MonotonicityGuard::new(false);
    let raws = [10i64, 4, 4, 9, 20];
    let expected = [10i64, 10, 10, 10, 20];
    for (raw, want) in raws.iter().zip(expected.iter()) {
        let out = g.observe(RawReading::new(*raw, 0));
        assert_eq!(out, RawReading::new(*want, 0));
    }
    assert_eq!(g.watermark, RawReading::new(20, 0));
}

#[test]
fn observe_raises_the_watermark_to_the_maximum() {
    let mut g = MonotonicityGuard::new(false);
    assert_eq!(g.observe(RawReading::new(5, 500)), RawReading::new(5, 500));
    // An equal-second, smaller-fraction reading keeps the watermark.
    assert_eq!(g.observe(RawReading::new(5, 400)), RawReading::new(5, 500));
    // An equal reading is returned unchanged.
    assert_eq!(g.observe(RawReading::new(5, 500)), RawReading::new(5, 500));
}

#[test]
fn known_monotonic_platform_skips_correction() {
    let access = UntrustedTimeAccess::grant();
    let mut g = MonotonicityGuard::new(true);
    let first = Instant::now(&access, &mut g, RawReading::new(50, 0));
    let second = Instant::now(&access, &mut g, RawReading::new(40, 0));
    // Raw readings pass through untouched and the watermark stays put.
    assert_eq!(first.get_tup(), (50, 0));
    assert_eq!(second.get_tup(), (40, 0));
    assert_eq!(g.watermark, RawReading::zero());
}

#[test]
fn now_applies_the_correction_protocol() {
    let access = UntrustedTimeAccess::grant();
    let mut g = MonotonicityGuard::new(false);
    let first = Instant::now(&access, &mut g, RawReading::new(100, 0));
    let second = Instant::now(&access, &mut g, RawReading::new(90, 0));
    assert_eq!(first.get_tup(), (100, 0));
    assert_eq!(second.get_tup(), (100, 0));
    assert_eq!(g.watermark, RawReading::new(100, 0));
}

#[test]
fn unguarded_now_fails_open() {
    // The documented fail-open path: with the guard unavailable, the raw
    // reading is used unmodified, even when it jumped backwards.
    let access = UntrustedTimeAccess::grant();
    let i = Instant::now_unguarded(&access, RawReading::new(3, 7));
    assert_eq!(i.get_tup(), (3, 7));
}
