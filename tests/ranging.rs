use sonar::ranging::{distance_nm, to_nanos, DistanceError, RangeConfig, NANOMETERS_PER_CM};

#[test]
fn timeout_of_one_metre() {
    let c = RangeConfig::new(100).unwrap();
    assert_eq!(c.max_distance(), 100);
    assert_eq!(c.timeout_nanos(), 5_882_352);
    assert_eq!(c.wait_ms(), 6);
}

#[test]
fn timeout_of_one_centimetre() {
    let c = RangeConfig::new(1).unwrap();
    assert_eq!(c.timeout_nanos(), 58_823);
    assert_eq!(c.wait_ms(), 1);
}

#[test]
fn timeout_positive_and_increasing() {
    let mut last = 0u64;
    for d in 1..500u64 {
        let t = RangeConfig::new(d).unwrap().timeout_nanos();
        assert!(t > last);
        last = t;
    }
}

#[test]
fn timeout_matches_round_trip_time() {
    for d in [1u64, 7, 100, 400, 12_345] {
        let t = RangeConfig::new(d).unwrap().timeout_nanos() as f64 / 1e9;
        let expected = 2.0 * (d as f64 / 100.0) / 340.0;
        assert!(t <= expected + 1e-12);
        assert!(expected - t < 1e-9);
    }
}

#[test]
fn zero_distance_is_refused() {
    assert_eq!(RangeConfig::new(0), Err(DistanceError::Zero));
}

#[test]
fn distance_beyond_wait_limit_is_refused() {
    assert_eq!(RangeConfig::new(u64::MAX), Err(DistanceError::TooLarge));
    assert_eq!(RangeConfig::new(40_000_000_000), Err(DistanceError::TooLarge));
    assert!(RangeConfig::new(36_000_000_000).is_ok());
}

#[test]
fn wait_is_rounded_up() {
    let c = RangeConfig::new(17).unwrap();
    assert_eq!(c.timeout_nanos(), 1_000_000);
    assert_eq!(c.wait_ms(), 1);
    let c = RangeConfig::new(18).unwrap();
    assert_eq!(c.timeout_nanos(), 1_058_823);
    assert_eq!(c.wait_ms(), 2);
}

#[test]
fn nanos_from_seconds_and_fraction() {
    assert_eq!(to_nanos(0, 0), 0);
    assert_eq!(to_nanos(1, 500), 1_000_000_500);
    assert_eq!(to_nanos(u64::MAX, 999_999_999), (u64::MAX as u128) * 1_000_000_000 + 999_999_999);
}

#[test]
fn distance_of_pulse_width() {
    let d = distance_nm(5_880_000).unwrap();
    assert_eq!(d, 999_600_000);
    let cm = d as f64 / NANOMETERS_PER_CM as f64;
    assert!((cm - 100.0).abs() < 0.1);
    assert_eq!(distance_nm(0), Some(0));
    assert_eq!(distance_nm(1), Some(170));
    assert_eq!(distance_nm(u128::MAX), None);
}
