use cyan_skillfish_governor_smu::config::{Config, ConfigError, RawConfig, RawEntry, RawInt, RawSafePoints};

fn raw() -> RawConfig {
    RawConfig {
        sample_us: None,
        adjust_us: None,
        burst_samples: None,
        down_events: None,
        ramp_rate_milli: None,
        ramp_rate_burst_milli: None,
        significant_change: None,
        up_thresh_ppm: None,
        down_thresh_ppm: None,
        throttling_temp: None,
        throttling_recovery_temp: None,
        safe_points: RawSafePoints::Absent,
    }
}

fn point(f: i64, v: i64) -> RawEntry {
    RawEntry::Point { frequency: RawInt::Value(f), voltage: RawInt::Value(v) }
}

fn with_points(entries: Vec<RawEntry>) -> RawConfig {
    let mut r = raw();
    r.safe_points = RawSafePoints::Entries(entries);
    r
}

#[test]
fn defaults() {
    let c = Config::new(&raw()).unwrap();
    assert_eq!(c.sampling_interval_us, 2000);
    assert_eq!(c.adjustment_interval_us, 20000);
    assert_eq!(c.burst_samples, Some(48));
    assert_eq!(c.down_events, 10);
    assert_eq!(c.ramp_rate_milli, 1000);
    assert_eq!(c.ramp_rate_burst_milli, 200_000);
    assert_eq!(c.significant_change, 10);
    assert_eq!(c.up_thresh_ppm, 950_000);
    assert_eq!(c.down_thresh_ppm, 800_000);
    assert_eq!(c.throttling_temp, None);
    assert_eq!(c.throttling_recovery_temp, None);
    assert_eq!(c.safe_points.points, vec![(350, 700), (2000, 1000)]);
    assert_eq!(c.residual_sleep_us(), 0);
}

#[test]
fn down_thresh_above_up_is_clamped() {
    let mut r = raw();
    r.up_thresh_ppm = Some(500_000);
    r.down_thresh_ppm = Some(700_000);
    let c = Config::new(&r).unwrap();
    assert_eq!(c.up_thresh_ppm, 500_000);
    assert_eq!(c.down_thresh_ppm, 500_000);
    r.up_thresh_ppm = Some(100_000);
    r.down_thresh_ppm = None;
    assert_eq!(Config::new(&r).unwrap().down_thresh_ppm, 0);
}

#[test]
fn zero_burst_samples_disables_burst() {
    let mut r = raw();
    r.burst_samples = Some(0);
    assert_eq!(Config::new(&r).unwrap().burst_samples, None);
    r.burst_samples = Some(-3);
    assert_eq!(Config::new(&r).unwrap().burst_samples, None);
    r.burst_samples = Some(100);
    assert_eq!(Config::new(&r).unwrap().burst_samples, Some(64));
    r.burst_samples = Some(64);
    assert_eq!(Config::new(&r).unwrap().burst_samples, Some(64));
}

#[test]
fn burst_rate_must_exceed_normal_rate() {
    let mut r = raw();
    r.ramp_rate_milli = Some(5000);
    r.ramp_rate_burst_milli = Some(4000);
    assert_eq!(Config::new(&r).unwrap().ramp_rate_burst_milli, 1_000_000);
    r.burst_samples = Some(0);
    assert_eq!(Config::new(&r).unwrap().ramp_rate_burst_milli, 4000);
}

#[test]
fn intervals_validated() {
    let mut r = raw();
    r.sample_us = Some(1000);
    r.adjust_us = Some(500);
    let c = Config::new(&r).unwrap();
    assert_eq!(c.adjustment_interval_us, 10_000);
    r.adjust_us = Some(100_000);
    let c = Config::new(&r).unwrap();
    assert_eq!(c.residual_sleep_us(), 100_000 - 64 * 1000);
    r.sample_us = Some(-1);
    assert_eq!(Config::new(&r).unwrap().sampling_interval_us, 2000);
}

#[test]
fn temperatures_validated() {
    let mut r = raw();
    r.throttling_temp = Some(120);
    r.throttling_recovery_temp = Some(200);
    let c = Config::new(&r).unwrap();
    assert_eq!(c.throttling_temp, Some(110));
    assert_eq!(c.throttling_recovery_temp, Some(109));
    r.throttling_temp = None;
    assert_eq!(Config::new(&r).unwrap().throttling_recovery_temp, None);
    r.throttling_temp = Some(0);
    r.throttling_recovery_temp = Some(5);
    assert_eq!(Config::new(&r).unwrap().throttling_recovery_temp, None);
    r.throttling_temp = Some(85);
    r.throttling_recovery_temp = Some(75);
    let c = Config::new(&r).unwrap();
    assert_eq!((c.throttling_temp, c.throttling_recovery_temp), (Some(85), Some(75)));
    r.down_events = Some(40000);
    assert_eq!(Config::new(&r).unwrap().down_events, 10);
}

#[test]
fn safe_points_sorted() {
    let c = Config::new(&with_points(vec![point(2000, 1000), point(350, 700), point(1000, 800)])).unwrap();
    assert_eq!(c.safe_points.points, vec![(350, 700), (1000, 800), (2000, 1000)]);
    assert_eq!(c.safe_points.voltage_for(351), Some(800));
    assert_eq!(c.safe_points.voltage_for(1000), Some(800));
    assert_eq!(c.safe_points.voltage_for(100), Some(700));
    assert_eq!(c.safe_points.voltage_for(2001), None);
}

#[test]
fn safe_point_at_zero_with_higher_voltage_rejected() {
    let r = with_points(vec![point(0, 900), point(1000, 800)]);
    assert_eq!(
        Config::new(&r).unwrap_err(),
        ConfigError::VoltageDecrease { higher_mv: 900, lower_mhz: 0, lower_mv: 800, higher_mhz: 1000 }
    );
}

#[test]
fn safe_point_errors() {
    let mut r = raw();
    r.safe_points = RawSafePoints::NotArray;
    assert_eq!(Config::new(&r).unwrap_err(), ConfigError::SafePointsNotArray);
    assert_eq!(Config::new(&with_points(vec![])).unwrap_err(), ConfigError::SafePointsEmpty);
    assert_eq!(
        Config::new(&with_points(vec![point(1, 1), RawEntry::NotTable])).unwrap_err(),
        ConfigError::SafePointNotTable(1)
    );
    let missing = RawEntry::Point { frequency: RawInt::Missing, voltage: RawInt::Value(1) };
    assert_eq!(Config::new(&with_points(vec![missing])).unwrap_err(), ConfigError::FrequencyMissing(0));
    let not_int = RawEntry::Point { frequency: RawInt::NotInteger, voltage: RawInt::Value(1) };
    assert_eq!(Config::new(&with_points(vec![not_int])).unwrap_err(), ConfigError::FrequencyNotInteger(0));
    assert_eq!(
        Config::new(&with_points(vec![point(-1, 1)])).unwrap_err(),
        ConfigError::FrequencyOutOfRange(0)
    );
    let no_volt = RawEntry::Point { frequency: RawInt::Value(5), voltage: RawInt::Missing };
    assert_eq!(Config::new(&with_points(vec![no_volt])).unwrap_err(), ConfigError::VoltageMissing(0));
    let bad_volt = RawEntry::Point { frequency: RawInt::Value(5), voltage: RawInt::NotInteger };
    assert_eq!(Config::new(&with_points(vec![bad_volt])).unwrap_err(), ConfigError::VoltageNotInteger(0));
    assert_eq!(
        Config::new(&with_points(vec![point(5, 1 << 40)])).unwrap_err(),
        ConfigError::VoltageOutOfRange(0)
    );
    assert_eq!(
        Config::new(&with_points(vec![point(500, 700), point(600, 800), point(500, 750), RawEntry::NotTable]))
            .unwrap_err(),
        ConfigError::DuplicateFrequency(500)
    );
}
