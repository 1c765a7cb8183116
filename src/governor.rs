//! The governor's control step: from GUI-busy samples and the temperature to
//! a target GFX frequency and, when warranted, a frequency/voltage change.
//!
//! A caller records [`SAMPLES_PER_ITERATION`] samples with
//! [`Governor::record_sample`], sleeping the sampling interval after each,
//! then calls [`Governor::adjust`] with the temperature, applies the change it
//! returns (voltage first), and sleeps [`Config::residual_sleep_us`].
use vstd::prelude::*;
use crate::codec::round_div;
use crate::config::Config;
use crate::error::SmuError;
use crate::safe_points::{lemma_chosen_voltage_is_least, lemma_voltage_defined, voltage_at};

verus! {

/// The hysteresis counter's step up on high load.
pub const UP_EVENTS: i32 = 2;

/// Samples taken per iteration: the 64-sample window and one more.
pub const SAMPLES_PER_ITERATION: u32 = 65;

/// Number of set bits among the low `n` bits of `x`.
pub open spec fn ones(x: nat, n: nat) -> nat
    decreases n,
{
    if n == 0 {
        0
    } else {
        x % 2 + ones(x / 2, (n - 1) as nat)
    }
}

/// Number of consecutive set bits at the bottom of the low `n` bits of `x`.
pub open spec fn trailing_ones(x: nat, n: nat) -> nat
    decreases n,
{
    if n == 0 || x % 2 == 0 {
        0
    } else {
        1 + trailing_ones(x / 2, (n - 1) as nat)
    }
}

/// The window after shifting in one sample as its lowest bit; the oldest
/// sample falls out at the top.
pub open spec fn shift_in(x: u64, active: bool) -> u64 {
    ((x % 0x8000_0000_0000_0000) * 2 + if active { 1u64 } else { 0u64 }) as u64
}

/// Frequency step per adjustment: `round(rate * interval)` in MHz, for a rate
/// in thousandths of MHz/ms and an interval in microseconds, capped at `u32::MAX`.
pub open spec fn step_size(rate_milli: u64, interval_us: u64) -> u32 {
    let s = round_div(rate_milli * interval_us, 1_000_000);
    if s > u32::MAX { u32::MAX } else { s as u32 }
}

pub open spec fn clamp(t: int, lo: int, hi: int) -> int {
    if t < lo {
        lo
    } else if t > hi {
        hi
    } else {
        t
    }
}

/// Set bits of a sample window.
pub fn popcount(x: u64) -> (r: u32)
    ensures
        r == ones(x as nat, 64),
        r <= 64,
{
    let mut y: u64 = x;
    let mut i: u32 = 0;
    let mut count: u32 = 0;
    while i < 64
        invariant
            i <= 64,
            count <= i,
            count + ones(y as nat, (64 - i) as nat) == ones(x as nat, 64),
        decreases 64 - i,
    {
        count = count + (y % 2) as u32;
        y = y / 2;
        i = i + 1;
    }
    count
}

/// Consecutive active samples at the recent end of a window.
pub fn burst_length(x: u64) -> (r: u32)
    ensures
        r == trailing_ones(x as nat, 64),
        r <= 64,
{
    let mut y: u64 = x;
    let mut i: u32 = 0;
    while i < 64 && y % 2 == 1
        invariant
            i <= 64,
            i + trailing_ones(y as nat, (64 - i) as nat) == trailing_ones(x as nat, 64),
        decreases 64 - i,
    {
        y = y / 2;
        i = i + 1;
    }
    i
}

/// The frequency step for `rate_milli` over `interval_us`.
pub fn freq_step_for(rate_milli: u64, interval_us: u64) -> (r: u32)
    requires
        interval_us <= 0x7FFF_FFFF_FFFF_FFFF,
    ensures
        r == step_size(rate_milli, interval_us),
{
    proof {
        assert(rate_milli * interval_us <= 0xFFFF_FFFF_FFFF_FFFF * 0x7FFF_FFFF_FFFF_FFFF) by (nonlinear_arith)
            requires
                rate_milli <= 0xFFFF_FFFF_FFFF_FFFF,
                interval_us <= 0x7FFF_FFFF_FFFF_FFFF,
        ;
    }
    let n: u128 = (rate_milli as u128) * (interval_us as u128);
    let s: u128 = (2 * n + 1_000_000) / 2_000_000;
    if s > 0xFFFF_FFFFu128 {
        0xFFFF_FFFF
    } else {
        s as u32
    }
}

/// A frequency to set and the voltage to set before it.
#[derive(Debug, Clone, Copy, PartialEq, Eq, Structural)]
pub struct FreqChange {
    pub freq_mhz: u32,
    pub voltage_mv: u32,
}

/// The governor's state across iterations.
#[derive(Debug, Clone)]
pub struct Governor {
    pub config: Config,
    pub min_freq: u32,
    pub max_freq: u32,
    /// The ceiling in force, lowered while throttling.
    pub max_freq_effective: u32,
    /// The frequency last set.
    pub curr_freq: u32,
    pub target_freq: u32,
    /// Hysteresis counter.
    pub status: i32,
    /// The last 64 samples, the most recent in the lowest bit.
    pub samples: u64,
    pub freq_step: u32,
    pub burst_freq_step: u32,
}

impl Governor {
    pub open spec fn wf(&self) -> bool {
        &&& self.config.wf()
        &&& self.max_freq <= self.config.safe_points.last_key()
        &&& self.min_freq <= self.target_freq <= self.max_freq_effective <= self.max_freq
        &&& self.min_freq <= self.curr_freq <= self.max_freq
        &&& -0x8000_0000 <= self.status <= 4
    }

    pub open spec fn change_to(&self, f: u32) -> FreqChange {
        FreqChange { freq_mhz: f, voltage_mv: voltage_at(self.config.safe_points@, f)->Some_0 }
    }

    /// Whether the window ends in a burst long enough to jump.
    pub open spec fn is_burst(&self) -> bool {
        match self.config.burst_samples {
            Some(b) => trailing_ones(self.samples as nat, 64) >= b,
            None => false,
        }
    }

    /// Average load above the upper threshold: `ones / 64 > up`.
    pub open spec fn load_high(&self) -> bool {
        ones(self.samples as nat, 64) * 15625 > self.config.up_thresh_ppm
    }

    /// Average load below the lower threshold: `ones / 64 < down`.
    pub open spec fn load_low(&self) -> bool {
        ones(self.samples as nat, 64) * 15625 < self.config.down_thresh_ppm
    }

    /// The ceiling after the thermal check at temperature `temp`: one
    /// significant step down when too hot (never below the minimum), back to
    /// the maximum once cool again.
    pub open spec fn next_max_effective(&self, temp: u32) -> u32 {
        match self.config.throttling_temp {
            None => self.max_freq_effective,
            Some(t) => {
                if temp > t && self.max_freq_effective >= self.min_freq + self.freq_step {
                    if self.max_freq_effective - self.config.significant_change >= self.min_freq {
                        (self.max_freq_effective - self.config.significant_change) as u32
                    } else {
                        self.min_freq
                    }
                } else if (self.config.throttling_recovery_temp matches Some(r) && temp < r)
                    && self.max_freq_effective != self.max_freq {
                    self.max_freq
                } else {
                    self.max_freq_effective
                }
            },
        }
    }

    /// The hysteresis counter after this iteration's rule, the first that applies.
    pub open spec fn next_status(&self) -> int {
        if self.is_burst() {
            self.status as int
        } else if self.load_high() && self.status <= UP_EVENTS {
            self.status + UP_EVENTS
        } else if self.load_low() && self.curr_freq > self.min_freq {
            if self.status > i32::MIN { self.status - 1 } else { self.status as int }
        } else if self.status < 0 {
            self.status + 1
        } else if self.status > 0 {
            self.status - 1
        } else {
            self.status as int
        }
    }

    pub open spec fn unclamped_target(&self) -> int {
        if self.is_burst() {
            self.target_freq + self.burst_freq_step
        } else if self.next_status() <= -(self.config.down_events as int) {
            self.target_freq - self.freq_step
        } else if self.next_status() >= UP_EVENTS {
            self.target_freq + self.freq_step
        } else {
            self.target_freq as int
        }
    }

    pub open spec fn next_target(&self, temp: u32) -> u32 {
        clamp(self.unclamped_target(), self.min_freq as int, self.next_max_effective(temp) as int) as u32
    }

    /// Whether the iteration sets the hardware to its target.
    pub open spec fn issues_change(&self, temp: u32) -> bool {
        let t = self.next_target(temp);
        let diff = if self.curr_freq >= t { self.curr_freq - t } else { t - self.curr_freq };
        &&& t != self.curr_freq
        &&& (self.is_burst() || t == self.min_freq || t == self.next_max_effective(temp)
            || diff >= self.config.significant_change)
    }

    /// The state after an iteration at temperature `temp`.
    pub open spec fn next(&self, temp: u32) -> Governor {
        let t = self.next_target(temp);
        let issue = self.issues_change(temp);
        Governor {
            max_freq_effective: self.next_max_effective(temp),
            target_freq: t,
            curr_freq: if issue { t } else { self.curr_freq },
            status: if issue { 0 } else { self.next_status() as i32 },
            ..*self
        }
    }

    /// Starts the governor on a device whose engine clock ranges from
    /// `device_min_mhz` to `device_max_mhz`: the range is the safe points'
    /// range narrowed to the device's. The governor starts at the minimum,
    /// and the change returned sets the hardware there.
    pub fn new(config: Config, device_min_mhz: u64, device_max_mhz: u64) -> (r: Result<(Governor, FreqChange), SmuError>)
        requires
            config.wf(),
        ensures
            ({
                let first = config.safe_points.first_key();
                let last = config.safe_points.last_key();
                let min = if (first as u64) < device_min_mhz { device_min_mhz as int } else { first as int };
                let max = if (last as u64) > device_max_mhz { device_max_mhz as int } else { last as int };
                if min > last {
                    r == Err::<(Governor, FreqChange), SmuError>(SmuError::BeyondMaxSafePoint)
                } else if max < min {
                    r == Err::<(Governor, FreqChange), SmuError>(SmuError::FrequencyRangeEmpty { min: min as u32, max: max as u32 })
                } else {
                    r matches Ok((g, ch)) && {
                        &&& g.wf()
                        &&& g.config == config
                        &&& g.min_freq == min
                        &&& g.max_freq == max
                        &&& g.max_freq_effective == max
                        &&& g.curr_freq == min
                        &&& g.target_freq == min
                        &&& g.status == 0
                        &&& g.samples == 0
                        &&& g.freq_step == step_size(config.ramp_rate_milli, config.adjustment_interval_us)
                        &&& g.burst_freq_step == step_size(config.ramp_rate_burst_milli, config.adjustment_interval_us)
                        &&& ch == g.change_to(min as u32)
                    }
                }
            }),
    {
        let first = config.safe_points.min_frequency();
        let last = config.safe_points.max_frequency();
        let min: u64 = if (first as u64) < device_min_mhz { device_min_mhz } else { first as u64 };
        if min > last as u64 {
            return Err(SmuError::BeyondMaxSafePoint);
        }
        let min = min as u32;
        let max: u32 = if (last as u64) > device_max_mhz { device_max_mhz as u32 } else { last };
        if max < min {
            return Err(SmuError::FrequencyRangeEmpty { min, max });
        }
        let freq_step = freq_step_for(config.ramp_rate_milli, config.adjustment_interval_us);
        let burst_freq_step = freq_step_for(config.ramp_rate_burst_milli, config.adjustment_interval_us);
        let g = Governor {
            config,
            min_freq: min,
            max_freq: max,
            max_freq_effective: max,
            curr_freq: min,
            target_freq: min,
            status: 0,
            samples: 0,
            freq_step,
            burst_freq_step,
        };
        let ch = match g.change_for(min) {
            Ok(ch) => ch,
            Err(e) => {
                return Err(e);
            },
        };
        Ok((g, ch))
    }

    /// One iteration's decisions, at temperature `temp`, on the samples
    /// recorded so far: the thermal ceiling, the hysteresis counter, the
    /// target, and the change to make, if any. The target always stays
    /// between the minimum and the ceiling, and the ceiling within the range.
    pub fn adjust(&mut self, temp: u32) -> (r: Option<FreqChange>)
        requires
            old(self).wf(),
        ensures
            *final(self) == old(self).next(temp),
            final(self).wf(),
            final(self).min_freq <= final(self).target_freq <= final(self).max_freq_effective <= final(self).max_freq,
            r == (if old(self).issues_change(temp) {
                Some(old(self).change_to(old(self).next_target(temp)))
            } else {
                None
            }),
    {
        let min = self.min_freq;
        let burst = match self.config.burst_samples {
            Some(b) => burst_length(self.samples) >= b,
            None => false,
        };
        let n: u64 = popcount(self.samples) as u64;

        let mut max_eff = self.max_freq_effective;
        match self.config.throttling_temp {
            Some(t) => {
                let sig = self.config.significant_change;
                if temp > t && (max_eff as u64) >= (min as u64) + (self.freq_step as u64) {
                    max_eff = if (max_eff as i64) - (sig as i64) >= min as i64 { max_eff - sig } else { min };
                } else {
                    let cool = match self.config.throttling_recovery_temp {
                        Some(rt) => temp < rt,
                        None => false,
                    };
                    if cool && max_eff != self.max_freq {
                        max_eff = self.max_freq;
                    }
                }
            },
            None => {},
        }

        let mut status: i32 = self.status;
        if !burst {
            if n * 15625 > self.config.up_thresh_ppm as u64 && status <= UP_EVENTS {
                status = status + UP_EVENTS;
            } else if n * 15625 < self.config.down_thresh_ppm as u64 && self.curr_freq > min {
                if status > i32::MIN {
                    status = status - 1;
                }
            } else if status < 0 {
                status = status + 1;
            } else if status > 0 {
                status = status - 1;
            }
        }

        let mut target: i64 = self.target_freq as i64;
        if burst {
            target = target + self.burst_freq_step as i64;
        } else if (status as i64) <= -(self.config.down_events as i64) {
            target = target - self.freq_step as i64;
        } else if status >= UP_EVENTS {
            target = target + self.freq_step as i64;
        }
        let t: u32 = if target < min as i64 {
            min
        } else if target > max_eff as i64 {
            max_eff
        } else {
            target as u32
        };

        let curr = self.curr_freq;
        let diff: u32 = if curr >= t { curr - t } else { t - curr };
        let issue = t != curr && (burst || t == min || t == max_eff || diff >= self.config.significant_change);

        self.max_freq_effective = max_eff;
        self.target_freq = t;
        if issue {
            self.curr_freq = t;
            self.status = 0;
            match self.change_for(t) {
                Ok(ch) => Some(ch),
                Err(_) => None,
            }
        } else {
            self.status = status;
            None
        }
    }

    /// Records one GUI-busy sample.
    pub fn record_sample(&mut self, active: bool)
        ensures
            *final(self) == (Governor { samples: shift_in(old(self).samples, active), ..*old(self) }),
    {
        let bit: u64 = if active { 1 } else { 0 };
        self.samples = (self.samples % 0x8000_0000_0000_0000) * 2 + bit;
    }

    /// The change that sets frequency `f` with the least voltage safe for it;
    /// `BeyondMaxSafePoint` above the highest safe point.
    pub fn change_for(&self, f: u32) -> (r: Result<FreqChange, SmuError>)
        requires
            self.config.safe_points.wf(),
        ensures
            r == (if f <= self.config.safe_points.last_key() {
                Ok(self.change_to(f))
            } else {
                Err(SmuError::BeyondMaxSafePoint)
            }),
    {
        match self.config.safe_points.voltage_for(f) {
            Some(v) => Ok(FreqChange { freq_mhz: f, voltage_mv: v }),
            None => Err(SmuError::BeyondMaxSafePoint),
        }
    }
}

/// While the temperature stays above the throttling point the ceiling never
/// rises, and an iteration below the recovery point restores it to the maximum.
pub proof fn lemma_throttle_ceiling(g: Governor, temp: u32)
    requires
        g.wf(),
    ensures
        (g.config.throttling_temp matches Some(t) && temp > t) ==> g.next(temp).max_freq_effective <= g.max_freq_effective,
        (g.config.throttling_recovery_temp matches Some(r) && temp < r) ==> g.next(temp).max_freq_effective == g.max_freq,
{
}

/// Every change the governor asks for pairs its frequency with the voltage
/// of a safe point at or above it, and with no more voltage than any such point.
pub proof fn lemma_change_voltage_least(g: Governor, temp: u32)
    requires
        g.wf(),
        g.issues_change(temp),
    ensures
        ({
            let pts = g.config.safe_points@;
            let ch = g.change_to(g.next_target(temp));
            &&& voltage_at(pts, ch.freq_mhz) is Some
            &&& exists|i: int| 0 <= i < pts.len() && pts[i].0 >= ch.freq_mhz && pts[i].1 == ch.voltage_mv
            &&& forall|j: int| 0 <= j < pts.len() && pts[j].0 >= ch.freq_mhz ==> ch.voltage_mv <= #[trigger] pts[j].1
        }),
{
    let pts = g.config.safe_points@;
    let f = g.next_target(temp);
    lemma_voltage_defined(pts, f);
    lemma_chosen_voltage_is_least(pts, f);
}

/// Without a burst length the governor never takes the burst path.
pub proof fn lemma_no_burst_without_length(g: Governor)
    requires
        g.config.burst_samples is None,
    ensures
        !g.is_burst(),
{
}

} // verus!
