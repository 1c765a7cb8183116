//! Governor configuration: the validated [`Config`] and the validation of a
//! [`RawConfig`] read from the configuration file.
use vstd::prelude::*;
use crate::safe_points::{keys_increasing, voltages_monotone, SafePoints};

verus! {

/// A validated configuration.
///
/// Intervals are in microseconds, ramp rates in thousandths of MHz per ms,
/// load thresholds in millionths of full load, frequencies in MHz and
/// temperatures in degrees Celsius.
#[derive(Debug, Clone)]
pub struct Config {
    pub sampling_interval_us: u32,
    pub adjustment_interval_us: u64,
    pub ramp_rate_milli: u64,
    pub ramp_rate_burst_milli: u64,
    pub burst_samples: Option<u32>,
    pub significant_change: u32,
    pub up_thresh_ppm: u32,
    pub down_thresh_ppm: u32,
    pub down_events: i16,
    pub throttling_temp: Option<u32>,
    pub throttling_recovery_temp: Option<u32>,
    pub safe_points: SafePoints,
}

impl Config {
    pub open spec fn wf(&self) -> bool {
        &&& self.sampling_interval_us > 0
        &&& self.sampling_interval_us <= self.adjustment_interval_us <= 0x7FFF_FFFF_FFFF_FFFF
        &&& self.ramp_rate_milli > 0
        &&& self.ramp_rate_burst_milli > 0
        &&& (self.burst_samples is Some ==> self.ramp_rate_burst_milli > self.ramp_rate_milli)
        &&& (self.burst_samples matches Some(n) ==> 1 <= n <= 64)
        &&& self.significant_change > 0
        &&& self.up_thresh_ppm < 1_000_000
        &&& self.down_thresh_ppm <= self.up_thresh_ppm
        &&& self.down_events >= 0
        &&& (self.throttling_temp matches Some(t) ==> t <= 110)
        &&& (self.throttling_recovery_temp matches Some(r) ==> (self.throttling_temp matches Some(t) && r < t))
        &&& self.safe_points.wf()
    }

    /// The sleep after the sampling phase: the adjustment interval less the
    /// 64 sampling intervals already spent, or 0 when those fill it.
    pub fn residual_sleep_us(&self) -> (r: u64)
        requires
            self.wf(),
        ensures
            r == (if self.adjustment_interval_us >= 64 * self.sampling_interval_us {
                self.adjustment_interval_us - 64 * self.sampling_interval_us
            } else {
                0
            }),
    {
        let spent: u64 = 64 * (self.sampling_interval_us as u64);
        if self.adjustment_interval_us >= spent {
            self.adjustment_interval_us - spent
        } else {
            0
        }
    }
}

/// An integer entry as read from the configuration file.
#[derive(Debug, Clone, Copy, PartialEq, Eq, Structural)]
pub enum RawInt {
    Missing,
    NotInteger,
    Value(i64),
}

/// One element of the `safe-points` array.
#[derive(Debug, Clone, Copy, PartialEq, Eq, Structural)]
pub enum RawEntry {
    NotTable,
    Point { frequency: RawInt, voltage: RawInt },
}

/// The `safe-points` key.
#[derive(Debug, Clone, PartialEq, Eq)]
pub enum RawSafePoints {
    Absent,
    NotArray,
    Entries(Vec<RawEntry>),
}

/// The configuration as read from the file, before validation. A field is
/// `None` when its key is missing or of the wrong type. Ramp rates are in
/// thousandths of MHz/ms and load thresholds in millionths.
#[derive(Debug, Clone, PartialEq, Eq)]
pub struct RawConfig {
    pub sample_us: Option<i64>,
    pub adjust_us: Option<i64>,
    pub burst_samples: Option<i64>,
    pub down_events: Option<i64>,
    pub ramp_rate_milli: Option<i64>,
    pub ramp_rate_burst_milli: Option<i64>,
    pub significant_change: Option<i64>,
    pub up_thresh_ppm: Option<i64>,
    pub down_thresh_ppm: Option<i64>,
    pub throttling_temp: Option<i64>,
    pub throttling_recovery_temp: Option<i64>,
    pub safe_points: RawSafePoints,
}

/// Why a configuration is refused. Only the safe points can refuse it: other
/// invalid values are replaced by their defaults.
#[derive(Debug, Clone, Copy, PartialEq, Eq, Structural)]
pub enum ConfigError {
    SafePointsNotArray,
    SafePointsEmpty,
    SafePointNotTable(usize),
    FrequencyMissing(usize),
    FrequencyNotInteger(usize),
    FrequencyOutOfRange(usize),
    VoltageMissing(usize),
    VoltageNotInteger(usize),
    VoltageOutOfRange(usize),
    DuplicateFrequency(u32),
    /// `higher_mv` at `lower_mhz` exceeds `lower_mv` at the higher `higher_mhz`.
    VoltageDecrease { higher_mv: u32, lower_mhz: u32, lower_mv: u32, higher_mhz: u32 },
}

pub open spec fn fits_u32(v: i64) -> bool {
    0 <= v <= u32::MAX
}

/// The point an entry holds, if it is well formed.
pub open spec fn entry_point(e: RawEntry) -> Option<(u32, u32)> {
    match e {
        RawEntry::Point { frequency: RawInt::Value(f), voltage: RawInt::Value(v) } => {
            if fits_u32(f) && fits_u32(v) { Some((f as u32, v as u32)) } else { None }
        },
        _ => None,
    }
}

/// Entry `e` is a well-formed point at frequency `f`.
pub open spec fn has_frequency(e: RawEntry, f: i64) -> bool {
    entry_point(e) matches Some(p) && p.0 == f
}

/// What is wrong with entry `i`, given that the entries before it are fine.
pub open spec fn entry_error(entries: Seq<RawEntry>, i: int) -> Option<ConfigError> {
    match entries[i] {
        RawEntry::NotTable => Some(ConfigError::SafePointNotTable(i as usize)),
        RawEntry::Point { frequency, voltage } => match frequency {
            RawInt::Missing => Some(ConfigError::FrequencyMissing(i as usize)),
            RawInt::NotInteger => Some(ConfigError::FrequencyNotInteger(i as usize)),
            RawInt::Value(f) => {
                if !fits_u32(f) {
                    Some(ConfigError::FrequencyOutOfRange(i as usize))
                } else {
                    match voltage {
                        RawInt::Missing => Some(ConfigError::VoltageMissing(i as usize)),
                        RawInt::NotInteger => Some(ConfigError::VoltageNotInteger(i as usize)),
                        RawInt::Value(v) => {
                            if !fits_u32(v) {
                                Some(ConfigError::VoltageOutOfRange(i as usize))
                            } else if exists|j: int| 0 <= j < i && #[trigger] has_frequency(entries[j], f) {
                                Some(ConfigError::DuplicateFrequency(f as u32))
                            } else {
                                None
                            }
                        },
                    }
                }
            },
        },
    }
}

/// Entry `i` is the first with something wrong.
pub open spec fn first_defect(entries: Seq<RawEntry>, i: int) -> bool {
    &&& 0 <= i < entries.len()
    &&& entry_error(entries, i) is Some
    &&& forall|j: int| 0 <= j < i ==> entry_error(entries, j) is None
}

pub open spec fn no_defect(entries: Seq<RawEntry>) -> bool {
    forall|j: int| 0 <= j < entries.len() ==> entry_error(entries, j) is None
}

/// Point `p` is given by some entry.
pub open spec fn given(entries: Seq<RawEntry>, p: (u32, u32)) -> bool {
    exists|k: int| 0 <= k < entries.len() && #[trigger] entry_point(entries[k]) == Some(p)
}

/// Point `p` is given by one of the first `n` entries.
pub open spec fn given_before(entries: Seq<RawEntry>, n: int, p: (u32, u32)) -> bool {
    exists|k: int| 0 <= k < n && #[trigger] entry_point(entries[k]) == Some(p)
}

/// Two given points where the higher frequency has the lower voltage.
pub open spec fn voltage_decreases(entries: Seq<RawEntry>) -> bool {
    exists|a: (u32, u32), b: (u32, u32)| given(entries, a) && given(entries, b) && a.0 < b.0 && a.1 > b.1
}

/// Checks and sorts the `safe-points` entries. The first malformed or
/// repeated entry is reported; failing that, a pair of points whose voltage
/// falls as the frequency rises. Otherwise the result holds the given points
/// sorted by frequency.
pub fn safe_points_from_entries(entries: &Vec<RawEntry>) -> (r: Result<SafePoints, ConfigError>)
    requires
        entries@.len() > 0,
    ensures
        r is Ok <==> no_defect(entries@) && !voltage_decreases(entries@),
        r matches Ok(sp) ==> {
            &&& sp.wf()
            &&& forall|p: (u32, u32)| sp.points@.contains(p) <==> given(entries@, p)
        },
        r matches Err(e) ==> {
            ||| exists|i: int| first_defect(entries@, i) && e == entry_error(entries@, i)->Some_0
            ||| (no_defect(entries@) && (e matches ConfigError::VoltageDecrease { higher_mv, lower_mhz, lower_mv, higher_mhz }
                && given(entries@, (lower_mhz, higher_mv)) && given(entries@, (higher_mhz, lower_mv))
                && lower_mhz < higher_mhz && higher_mv > lower_mv))
        },
{
    let mut sorted: Vec<(u32, u32)> = Vec::new();
    let mut i: usize = 0;
    while i < entries.len()
        invariant
            i <= entries@.len(),
            keys_increasing(sorted@),
            forall|k: int| 0 <= k < i ==> entry_error(entries@, k) is None,
            forall|k: int| 0 <= k < i ==> #[trigger] entry_point(entries@[k]) is Some,
            forall|k: int| 0 <= k < i ==> sorted@.contains(#[trigger] entry_point(entries@[k])->Some_0),
            forall|m: int| 0 <= m < sorted@.len() ==> given_before(entries@, i as int, #[trigger] sorted@[m]),
            sorted@.len() > 0 || i == 0,
        decreases entries@.len() - i,
    {
        let e = entries[i];
        let (f, v) = match e {
            RawEntry::NotTable => {
                proof { assert(first_defect(entries@, i as int)); }
                return Err(ConfigError::SafePointNotTable(i));
            },
            RawEntry::Point { frequency, voltage } => {
                let f: u32 = match frequency {
                    RawInt::Missing => {
                        proof { assert(first_defect(entries@, i as int)); }
                        return Err(ConfigError::FrequencyMissing(i));
                    },
                    RawInt::NotInteger => {
                        proof { assert(first_defect(entries@, i as int)); }
                        return Err(ConfigError::FrequencyNotInteger(i));
                    },
                    RawInt::Value(x) => {
                        if x < 0 || x > 0xFFFF_FFFF {
                            proof { assert(first_defect(entries@, i as int)); }
                            return Err(ConfigError::FrequencyOutOfRange(i));
                        }
                        x as u32
                    },
                };
                let v: u32 = match voltage {
                    RawInt::Missing => {
                        proof { assert(first_defect(entries@, i as int)); }
                        return Err(ConfigError::VoltageMissing(i));
                    },
                    RawInt::NotInteger => {
                        proof { assert(first_defect(entries@, i as int)); }
                        return Err(ConfigError::VoltageNotInteger(i));
                    },
                    RawInt::Value(y) => {
                        if y < 0 || y > 0xFFFF_FFFF {
                            proof { assert(first_defect(entries@, i as int)); }
                            return Err(ConfigError::VoltageOutOfRange(i));
                        }
                        y as u32
                    },
                };
                (f, v)
            },
        };
        assert(entry_point(entries@[i as int]) == Some((f, v)));
        let mut p: usize = 0;
        while p < sorted.len() && sorted[p].0 < f
            invariant
                p <= sorted@.len(),
                forall|m: int| 0 <= m < p ==> #[trigger] sorted@[m].0 < f,
            decreases sorted@.len() - p,
        {
            p = p + 1;
        }
        if p < sorted.len() && sorted[p].0 == f {
            proof {
                assert(given_before(entries@, i as int, sorted@[p as int]));
                let k = choose|k: int| 0 <= k < i && #[trigger] entry_point(entries@[k]) == Some(sorted@[p as int]);
                assert(has_frequency(entries@[k], f as i64));
                assert(first_defect(entries@, i as int));
            }
            return Err(ConfigError::DuplicateFrequency(f));
        }
        proof {
            assert forall|j: int| 0 <= j < i implies !#[trigger] has_frequency(entries@[j], f as i64) by {
                let q = entry_point(entries@[j])->Some_0;
                assert(sorted@.contains(q));
                let m = choose|m: int| 0 <= m < sorted@.len() && sorted@[m] == q;
                if m < p {
                } else if m == p {
                } else {
                    assert(sorted@[p as int].0 < sorted@[m].0);
                }
            }
            assert(entry_error(entries@, i as int) is None);
        }
        let ghost old_sorted = sorted@;
        sorted.insert(p, (f, v));
        proof {
            assert(sorted@ == old_sorted.insert(p as int, (f, v)));
            assert forall|a: int, b: int| 0 <= a < b < sorted@.len() implies #[trigger] sorted@[a].0 < #[trigger] sorted@[b].0 by {
                if b < p {
                } else if b == p {
                } else if a < p {
                    assert(sorted@[b] == old_sorted[b - 1]);
                    if p < old_sorted.len() {
                        assert(old_sorted[p as int].0 > f || old_sorted[p as int].0 == f);
                        assert(old_sorted[p as int].0 != f);
                        if b - 1 > p {
                            assert(old_sorted[p as int].0 < old_sorted[b - 1].0);
                        }
                    }
                } else if a == p {
                    assert(sorted@[b] == old_sorted[b - 1]);
                    assert(old_sorted[p as int].0 >= f);
                    assert(old_sorted[p as int].0 != f);
                    if b - 1 > p {
                        assert(old_sorted[p as int].0 < old_sorted[b - 1].0);
                    }
                } else {
                    assert(sorted@[a] == old_sorted[a - 1]);
                    assert(sorted@[b] == old_sorted[b - 1]);
                }
            }
            assert forall|k: int| 0 <= k < i + 1 implies sorted@.contains(#[trigger] entry_point(entries@[k])->Some_0) by {
                if k < i {
                    let q = entry_point(entries@[k])->Some_0;
                    let m = choose|m: int| 0 <= m < old_sorted.len() && old_sorted[m] == q;
                    if m < p {
                        assert(sorted@[m] == q);
                    } else {
                        assert(sorted@[m + 1] == q);
                    }
                } else {
                    assert(sorted@[p as int] == (f, v));
                }
            }
            assert forall|m: int| 0 <= m < sorted@.len() implies given_before(entries@, i + 1, #[trigger] sorted@[m]) by {
                if m < p {
                    assert(sorted@[m] == old_sorted[m]);
                    assert(given_before(entries@, i as int, old_sorted[m]));
                } else if m == p {
                    assert(entry_point(entries@[i as int]) == Some(sorted@[m]));
                } else {
                    assert(sorted@[m] == old_sorted[m - 1]);
                    assert(given_before(entries@, i as int, old_sorted[m - 1]));
                }
            }
        }
        i = i + 1;
    }
    proof {
        assert forall|p: (u32, u32)| sorted@.contains(p) <==> given(entries@, p) by {
            if sorted@.contains(p) {
                let m = choose|m: int| 0 <= m < sorted@.len() && sorted@[m] == p;
                assert(given_before(entries@, i as int, sorted@[m]));
                let k = choose|k: int| 0 <= k < i && #[trigger] entry_point(entries@[k]) == Some(sorted@[m]);
                assert(given(entries@, p));
            }
            if given(entries@, p) {
                let k = choose|k: int| 0 <= k < entries@.len() && #[trigger] entry_point(entries@[k]) == Some(p);
                assert(sorted@.contains(entry_point(entries@[k])->Some_0));
            }
        }
    }
    let mut j: usize = 1;
    while j < sorted.len()
        invariant
            1 <= j,
            j <= sorted@.len() || sorted@.len() == 0,
            sorted@.len() > 0,
            keys_increasing(sorted@),
            no_defect(entries@),
            forall|p: (u32, u32)| sorted@.contains(p) <==> given(entries@, p),
            forall|a: int, b: int| 0 <= a < b < j ==> #[trigger] sorted@[a].1 <= #[trigger] sorted@[b].1,
        decreases sorted@.len() - j,
    {
        let (lf, hv) = sorted[j - 1];
        let (hf, lv) = sorted[j];
        if lv < hv {
            proof {
                assert(sorted@.contains(sorted@[j - 1]));
                assert(sorted@.contains(sorted@[j as int]));
                assert(sorted@[j - 1].0 < sorted@[j as int].0);
                assert(given(entries@, (lf, hv)) && given(entries@, (hf, lv)));
                assert(voltage_decreases(entries@));
            }
            return Err(ConfigError::VoltageDecrease { higher_mv: hv, lower_mhz: lf, lower_mv: lv, higher_mhz: hf });
        }
        proof {
            assert forall|a: int, b: int| 0 <= a < b < j + 1 implies #[trigger] sorted@[a].1 <= #[trigger] sorted@[b].1 by {
                if b == j && a < j - 1 {
                    assert(sorted@[a].1 <= sorted@[j - 1].1);
                }
            }
        }
        j = j + 1;
    }
    proof {
        assert(voltages_monotone(sorted@));
        if voltage_decreases(entries@) {
            let (a, b) = choose|a: (u32, u32), b: (u32, u32)| given(entries@, a) && given(entries@, b) && a.0 < b.0 && a.1 > b.1;
            assert(sorted@.contains(a));
            assert(sorted@.contains(b));
            let ma = choose|m: int| 0 <= m < sorted@.len() && sorted@[m] == a;
            let mb = choose|m: int| 0 <= m < sorted@.len() && sorted@[m] == b;
            if ma < mb {
                assert(sorted@[ma].1 <= sorted@[mb].1);
            } else if ma > mb {
                assert(sorted@[mb].0 < sorted@[ma].0);
            }
        }
    }
    Ok(SafePoints { points: sorted })
}

/// Sampling interval: a positive value up to `u32::MAX` µs, else 2 ms.
pub open spec fn sampling_of(raw: &RawConfig) -> u32 {
    match raw.sample_us {
        Some(v) if 0 < v <= u32::MAX => v as u32,
        _ => 2000,
    }
}

/// Adjustment interval: a value at least the sampling interval, else ten
/// sampling intervals.
pub open spec fn adjustment_of(raw: &RawConfig) -> u64 {
    match raw.adjust_us {
        Some(v) if v > 0 && v >= sampling_of(raw) => v as u64,
        _ => (10 * sampling_of(raw)) as u64,
    }
}

/// Burst length: 48 when missing; 0 or negative turns bursting off; above
/// 64 is clamped to 64.
pub open spec fn burst_samples_of(raw: &RawConfig) -> Option<u32> {
    match raw.burst_samples {
        None => Some(48),
        Some(v) => if 1 <= v <= 64 {
            Some(v as u32)
        } else if v > 64 {
            Some(64)
        } else {
            None
        },
    }
}

/// Hysteresis floor: `0..=32767`, else 10.
pub open spec fn down_events_of(raw: &RawConfig) -> i16 {
    match raw.down_events {
        Some(v) if 0 <= v <= 32767 => v as i16,
        _ => 10,
    }
}

/// Normal ramp rate: positive, else 1 MHz/ms.
pub open spec fn ramp_rate_of(raw: &RawConfig) -> u64 {
    match raw.ramp_rate_milli {
        Some(v) if v > 0 => v as u64,
        _ => 1000,
    }
}

/// Burst ramp rate: positive and, while bursting is on, above the normal
/// rate; else 200 times the normal rate (capped at `u64::MAX`).
pub open spec fn ramp_rate_burst_of(raw: &RawConfig) -> u64 {
    match raw.ramp_rate_burst_milli {
        Some(v) if v > 0 && (v > ramp_rate_of(raw) || burst_samples_of(raw) is None) => v as u64,
        _ => if 200 * ramp_rate_of(raw) > u64::MAX { u64::MAX } else { (200 * ramp_rate_of(raw)) as u64 },
    }
}

/// Significant change: a positive value up to `u32::MAX` MHz, else 10.
pub open spec fn significant_change_of(raw: &RawConfig) -> u32 {
    match raw.significant_change {
        Some(v) if 0 < v <= u32::MAX => v as u32,
        _ => 10,
    }
}

/// Upper load threshold: a fraction in `[0, 1)`, else 0.95.
pub open spec fn up_thresh_of(raw: &RawConfig) -> u32 {
    match raw.up_thresh_ppm {
        Some(v) if 0 <= v < 1_000_000 => v as u32,
        _ => 950_000,
    }
}

/// Lower load threshold as given: a fraction in `[0, 1)`, else the upper
/// threshold less 0.15 (but not below 0).
pub open spec fn down_thresh_given(raw: &RawConfig) -> u32 {
    match raw.down_thresh_ppm {
        Some(v) if 0 <= v < 1_000_000 => v as u32,
        _ => if up_thresh_of(raw) >= 150_000 { (up_thresh_of(raw) - 150_000) as u32 } else { 0 },
    }
}

/// Lower load threshold, clamped to the upper one.
pub open spec fn down_thresh_of(raw: &RawConfig) -> u32 {
    if down_thresh_given(raw) > up_thresh_of(raw) {
        up_thresh_of(raw)
    } else {
        down_thresh_given(raw)
    }
}

/// Throttling temperature: `0..=110`, clamped to 110 above; off when
/// missing or negative.
pub open spec fn throttling_of(raw: &RawConfig) -> Option<u32> {
    match raw.throttling_temp {
        Some(v) if 0 <= v <= 110 => Some(v as u32),
        Some(v) if v > 110 => Some(110),
        _ => None,
    }
}

/// Recovery temperature: only with throttling on; a positive value below the
/// throttling temperature, clamped to one degree below it; off when missing,
/// 0 or negative.
pub open spec fn recovery_of(raw: &RawConfig) -> Option<u32> {
    match throttling_of(raw) {
        None => None,
        Some(t) => match raw.throttling_recovery_temp {
            Some(v) if v >= 1 => if v < t {
                Some(v as u32)
            } else if t >= 1 {
                Some((t - 1) as u32)
            } else {
                None
            },
            _ => None,
        },
    }
}

impl Config {
    /// Validates a raw configuration. Each invalid or missing value is
    /// replaced by its default; only the safe points can make it fail.
    pub fn new(raw: &RawConfig) -> (r: Result<Config, ConfigError>)
        ensures
            match raw.safe_points {
                RawSafePoints::NotArray => r == Err::<Config, ConfigError>(ConfigError::SafePointsNotArray),
                RawSafePoints::Entries(e) if e@.len() == 0 => r == Err::<Config, ConfigError>(ConfigError::SafePointsEmpty),
                RawSafePoints::Entries(e) => (r is Ok <==> no_defect(e@) && !voltage_decreases(e@))
                    && (r matches Ok(c) ==> forall|p: (u32, u32)| c.safe_points@.contains(p) <==> given(e@, p)),
                RawSafePoints::Absent => r is Ok && (r matches Ok(c) ==> c.safe_points@ == seq![(350u32, 700u32), (2000u32, 1000u32)]),
            },
            r matches Ok(c) ==> {
                &&& c.wf()
                &&& c.sampling_interval_us == sampling_of(raw)
                &&& c.adjustment_interval_us == adjustment_of(raw)
                &&& c.burst_samples == burst_samples_of(raw)
                &&& c.down_events == down_events_of(raw)
                &&& c.ramp_rate_milli == ramp_rate_of(raw)
                &&& c.ramp_rate_burst_milli == ramp_rate_burst_of(raw)
                &&& c.significant_change == significant_change_of(raw)
                &&& c.up_thresh_ppm == up_thresh_of(raw)
                &&& c.down_thresh_ppm == down_thresh_of(raw)
                &&& c.throttling_temp == throttling_of(raw)
                &&& c.throttling_recovery_temp == recovery_of(raw)
            },
    {
        let sampling: u32 = match raw.sample_us {
            Some(v) if 0 < v && v <= 0xFFFF_FFFF => v as u32,
            _ => 2000,
        };
        let adjustment: u64 = match raw.adjust_us {
            Some(v) if v > 0 && v >= sampling as i64 => v as u64,
            _ => 10 * (sampling as u64),
        };
        let burst_samples: Option<u32> = match raw.burst_samples {
            None => Some(48),
            Some(v) => if 1 <= v && v <= 64 {
                Some(v as u32)
            } else if v > 64 {
                Some(64)
            } else {
                None
            },
        };
        let down_events: i16 = match raw.down_events {
            Some(v) if 0 <= v && v <= 32767 => v as i16,
            _ => 10,
        };
        let ramp: u64 = match raw.ramp_rate_milli {
            Some(v) if v > 0 => v as u64,
            _ => 1000,
        };
        let ramp_burst: u64 = match raw.ramp_rate_burst_milli {
            Some(v) if v > 0 && (v as u64 > ramp || burst_samples.is_none()) => v as u64,
            _ => if ramp > 0xFFFF_FFFF_FFFF_FFFF / 200 { 0xFFFF_FFFF_FFFF_FFFF } else { ramp * 200 },
        };
        let significant_change: u32 = match raw.significant_change {
            Some(v) if 0 < v && v <= 0xFFFF_FFFF => v as u32,
            _ => 10,
        };
        let up: u32 = match raw.up_thresh_ppm {
            Some(v) if 0 <= v && v < 1_000_000 => v as u32,
            _ => 950_000,
        };
        let down_given: u32 = match raw.down_thresh_ppm {
            Some(v) if 0 <= v && v < 1_000_000 => v as u32,
            _ => if up >= 150_000 { up - 150_000 } else { 0 },
        };
        let down: u32 = if down_given > up { up } else { down_given };
        let throttling: Option<u32> = match raw.throttling_temp {
            Some(v) if 0 <= v && v <= 110 => Some(v as u32),
            Some(v) if v > 110 => Some(110),
            _ => None,
        };
        let recovery: Option<u32> = match throttling {
            None => None,
            Some(t) => match raw.throttling_recovery_temp {
                Some(v) if v >= 1 => if v < t as i64 {
                    Some(v as u32)
                } else if t >= 1 {
                    Some(t - 1)
                } else {
                    None
                },
                _ => None,
            },
        };
        let safe_points = match &raw.safe_points {
            RawSafePoints::Absent => SafePoints::conservative(),
            RawSafePoints::NotArray => {
                return Err(ConfigError::SafePointsNotArray);
            },
            RawSafePoints::Entries(e) => {
                if e.len() == 0 {
                    return Err(ConfigError::SafePointsEmpty);
                }
                safe_points_from_entries(e)?
            },
        };
        Ok(Config {
            sampling_interval_us: sampling,
            adjustment_interval_us: adjustment,
            ramp_rate_milli: ramp,
            ramp_rate_burst_milli: ramp_burst,
            burst_samples,
            significant_change,
            up_thresh_ppm: up,
            down_thresh_ppm: down,
            down_events,
            throttling_temp: throttling,
            throttling_recovery_temp: recovery,
            safe_points,
        })
    }
}

/// A lower load threshold above the upper one is clamped to the upper one.
pub proof fn lemma_down_thresh_clamped(raw: &RawConfig)
    ensures
        down_thresh_of(raw) <= up_thresh_of(raw),
        down_thresh_given(raw) > up_thresh_of(raw) ==> down_thresh_of(raw) == up_thresh_of(raw),
{
}

/// A burst length of 0 turns bursting off: the validated configuration has
/// no burst length, and the governor never takes the burst path.
pub proof fn lemma_zero_burst_disables(raw: &RawConfig)
    requires
        raw.burst_samples == Some(0i64),
    ensures
        burst_samples_of(raw) is None,
{
}

} // verus!
