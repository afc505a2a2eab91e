//! Adaptive control in the manner of stepper drivers: load estimation from
//! the current, current reduction at low load, velocity derating at high
//! load, and stall detection.
//!
//! Currents and velocities are Q16.16 numbers given by their raw bits. Loads
//! are in hundredths of a percent, scales in ten-thousandths: a load of 3333
//! is 33.33 %, a scale of 10000 is 1.0.

use vstd::prelude::*;
use super::fixed_point::{checked_product, fits, product};
use crate::firmware::telemetry::{mean_of, RingBuffer, RingModel};
use crate::firmware::units::{div_toward_zero, lemma_quot_bound, magnitude, quot};

verus! {

/// A scale of 1.0.
pub const FULL_SCALE: i32 = 10_000;

/// A load of 100 %.
pub const FULL_LOAD: i32 = 10_000;

/// The largest load that is reported: 150 %.
pub const MAX_LOAD: i32 = 15_000;

/// Currents over which the load is averaged.
pub const LOAD_WINDOW: usize = 50;

/// `x` limited to the interval from `low` to `high`.
pub open spec fn clamped(x: int, low: int, high: int) -> int
    recommends
        low <= high,
{
    if x < low {
        low
    } else if x > high {
        high
    } else {
        x
    }
}

/// Load estimator configuration. Currents in A and torques in Nm, Q16.16.
#[derive(Clone, Copy, Debug, PartialEq, Eq, Structural)]
pub struct LoadEstimatorConfig {
    pub rated_current: i32,
    pub rated_torque: i32,
    pub torque_constant: i32,
    pub stall_current_threshold: i32,
}

impl LoadEstimatorConfig {
    /// 3 A rated, 0.3 Nm rated, 0.1 Nm/A, stall above 2.5 A; each rounded to
    /// the nearest Q16.16 number.
    pub open spec fn standard() -> LoadEstimatorConfig {
        LoadEstimatorConfig {
            rated_current: 196_608,
            rated_torque: 19_661,
            torque_constant: 6_554,
            stall_current_threshold: 163_840,
        }
    }
}

impl Default for LoadEstimatorConfig {
    fn default() -> (c: Self)
        ensures
            c == LoadEstimatorConfig::standard(),
    {
        LoadEstimatorConfig {
            rated_current: 196_608,
            rated_torque: 19_661,
            torque_constant: 6_554,
            stall_current_threshold: 163_840,
        }
    }
}

/// The magnitude of a current, limited to the range of Q16.16.
pub open spec fn current_magnitude(current_q: i32) -> i32 {
    if current_q == i32::MIN {
        i32::MAX
    } else {
        magnitude(current_q as int) as i32
    }
}

/// The load that an average current of `average` is of `rated`: their ratio
/// in hundredths of a percent, rounded down, between 0 and 150 %. Without a
/// positive rated current there is no load.
pub open spec fn load_of(average: int, rated: int) -> int {
    if rated > 0 {
        clamped((average * FULL_LOAD) / rated, 0, MAX_LOAD as int)
    } else {
        0
    }
}

/// What a load estimator holds.
#[verifier::ext_equal]
pub struct LoadModel {
    /// Magnitudes of the last currents.
    pub history: RingModel,
    pub config: LoadEstimatorConfig,
    /// The load last estimated.
    pub last_load: i32,
}

impl LoadModel {
    /// The average of the current magnitudes held.
    pub open spec fn average(self) -> int {
        mean_of(self.history.slots)
    }

    /// The load at present.
    pub open spec fn load(self) -> int {
        load_of(self.average(), self.config.rated_current as int)
    }
}

/// Estimates the load of the motor from its torque-producing current.
pub struct LoadEstimator {
    current_history: RingBuffer<50>,
    config: LoadEstimatorConfig,
    last_load: i32,
}

impl View for LoadEstimator {
    type V = LoadModel;

    closed spec fn view(&self) -> LoadModel {
        LoadModel {
            history: self.current_history@,
            config: self.config,
            last_load: self.last_load,
        }
    }
}

/// The load of `average` against `rated`, computed.
fn compute_load(average: i32, rated: i32) -> (load: i32)
    ensures
        load == load_of(average as int, rated as int),
        0 <= load <= MAX_LOAD,
{
    if rated <= 0 {
        return 0;
    }
    if average <= 0 {
        assert((average * FULL_LOAD) / (rated as int) <= 0) by (nonlinear_arith)
            requires
                average <= 0,
                rated > 0,
        ;
        return 0;
    }
    let ratio: i64 = (average as i64 * 10_000) / rated as i64;
    if ratio > MAX_LOAD as i64 {
        MAX_LOAD
    } else {
        ratio as i32
    }
}

impl LoadEstimator {
    /// An estimator without samples.
    pub fn new(config: LoadEstimatorConfig) -> (e: Self)
        ensures
            e@ == (LoadModel {
                history: RingModel { slots: Seq::empty(), next: 0 },
                config,
                last_load: 0,
            }),
    {
        LoadEstimator { current_history: RingBuffer::new(), config, last_load: 0 }
    }

    /// Takes in one current sample.
    pub fn update(&mut self, current_q: i32)
        ensures
            final(self)@ == (LoadModel {
                history: old(self)@.history.pushed(
                    current_magnitude(current_q),
                    LOAD_WINDOW as nat,
                ),
                ..old(self)@
            }),
    {
        let size: i32 = if current_q == i32::MIN {
            i32::MAX
        } else if current_q < 0 {
            -current_q
        } else {
            current_q
        };
        self.current_history.push(size);
    }

    /// Estimates the load from the average of the samples held, and keeps it.
    pub fn estimate_load(&mut self) -> (load: i32)
        ensures
            load == old(self)@.load(),
            0 <= load <= MAX_LOAD,
            final(self)@ == (LoadModel { last_load: load, ..old(self)@ }),
    {
        let average: i32 = self.current_history.average();
        let load: i32 = compute_load(average, self.config.rated_current);
        self.last_load = load;
        load
    }

    /// The load last estimated.
    pub fn last_load(&self) -> (load: i32)
        ensures
            load == self@.last_load,
    {
        self.last_load
    }

    /// Whether the average current has reached the stall threshold.
    pub fn predict_stall(&self) -> (stall: bool)
        ensures
            stall == (self@.average() >= self@.config.stall_current_threshold),
    {
        self.current_history.average() >= self.config.stall_current_threshold
    }

    /// The torque that a current of `current_q` produces, if it is a Q16.16
    /// number.
    pub fn calculate_torque(&self, current_q: i32) -> (torque: Option<i32>)
        ensures
            torque == if fits(product(current_q as int, self@.config.torque_constant as int)) {
                Some(product(current_q as int, self@.config.torque_constant as int) as i32)
            } else {
                None
            },
    {
        checked_product(current_q, self.config.torque_constant)
    }

    /// The configuration in force.
    pub fn config(&self) -> (c: LoadEstimatorConfig)
        ensures
            c == self@.config,
    {
        self.config
    }

    /// Replaces the configuration.
    pub fn set_config(&mut self, config: LoadEstimatorConfig)
        ensures
            final(self)@ == (LoadModel { config, ..old(self)@ }),
    {
        self.config = config;
    }
}

impl Default for LoadEstimator {
    fn default() -> (e: Self)
        ensures
            e@.config == LoadEstimatorConfig::standard(),
            e@.last_load == 0,
    {
        LoadEstimator::new(LoadEstimatorConfig::default())
    }
}

/// Current reduction configuration. Scales in ten-thousandths, the threshold
/// in hundredths of a percent of load.
#[derive(Clone, Copy, Debug, PartialEq, Eq, Structural)]
pub struct CoolStepConfig {
    /// Smallest current scale.
    pub min_current_percent: i32,
    /// Largest current scale.
    pub max_current_scale: i32,
    pub adaptation_rate: i32,
    /// Load below which the current is reduced.
    pub reduction_threshold: i32,
    /// Largest change of the scale in one cycle.
    pub max_change_per_cycle: i32,
}

impl CoolStepConfig {
    /// Never below 30 %, at most 100 %, reduction below 30 % load, at most
    /// 5 % change per cycle.
    pub open spec fn standard() -> CoolStepConfig {
        CoolStepConfig {
            min_current_percent: 3_000,
            max_current_scale: 10_000,
            adaptation_rate: 1_000,
            reduction_threshold: 3_000,
            max_change_per_cycle: 500,
        }
    }

    /// The smallest scale is not above the largest, and the largest change is
    /// not negative.
    pub open spec fn is_valid(self) -> bool {
        self.min_current_percent <= self.max_current_scale && self.max_change_per_cycle >= 0
    }

    /// The scale aimed at under a load of `load`: at or above the threshold
    /// the largest scale; below it the part between the smallest and the
    /// largest scale that the load is of the threshold, rounded down.
    pub open spec fn target_scale(self, load: int) -> int {
        if load < self.reduction_threshold {
            self.min_current_percent + ((self.max_current_scale - self.min_current_percent)
                * load) / (self.reduction_threshold as int)
        } else {
            self.max_current_scale as int
        }
    }

    /// The scale after one cycle from `scale` under a load of `load`: a step
    /// toward the target of at most the largest change, kept between the
    /// smallest and the largest scale.
    pub open spec fn next_scale(self, scale: int, load: int) -> int {
        let change = clamped(
            self.target_scale(load) - scale,
            -self.max_change_per_cycle,
            self.max_change_per_cycle as int,
        );
        clamped(scale + change, self.min_current_percent as int, self.max_current_scale as int)
    }

    /// Whether the configuration is valid.
    pub fn validate(&self) -> (ok: bool)
        ensures
            ok == self.is_valid(),
    {
        self.min_current_percent <= self.max_current_scale && self.max_change_per_cycle >= 0
    }
}

impl Default for CoolStepConfig {
    fn default() -> (c: Self)
        ensures
            c == CoolStepConfig::standard(),
    {
        CoolStepConfig {
            min_current_percent: 3_000,
            max_current_scale: 10_000,
            adaptation_rate: 1_000,
            reduction_threshold: 3_000,
            max_change_per_cycle: 500,
        }
    }
}

/// What a current reducer holds.
#[verifier::ext_equal]
pub struct CoolStepModel {
    pub estimator: LoadModel,
    pub config: CoolStepConfig,
    pub current_scale: i32,
    pub enabled: bool,
    /// Energy saved so far, in µJ.
    pub savings: u64,
}

/// Reduces the current at low load to save power.
pub struct CoolStep {
    load_estimator: LoadEstimator,
    config: CoolStepConfig,
    current_scale: i32,
    enabled: bool,
    total_savings: u64,
}

impl View for CoolStep {
    type V = CoolStepModel;

    closed spec fn view(&self) -> CoolStepModel {
        CoolStepModel {
            estimator: self.load_estimator@,
            config: self.config,
            current_scale: self.current_scale,
            enabled: self.enabled,
            savings: self.total_savings,
        }
    }
}

/// `x` limited to the interval from `low` to `high`, computed.
fn clamp_between(x: i64, low: i64, high: i64) -> (r: i64)
    requires
        low <= high,
    ensures
        r == clamped(x as int, low as int, high as int),
{
    if x < low {
        low
    } else if x > high {
        high
    } else {
        x
    }
}

impl CoolStep {
    /// A disabled reducer at full current.
    pub fn new(load_config: LoadEstimatorConfig, config: CoolStepConfig) -> (c: Self)
        requires
            config.is_valid(),
        ensures
            c@.config == config,
            c@.estimator.config == load_config,
            c@.current_scale == FULL_SCALE,
            !c@.enabled,
            c@.savings == 0,
            c@.estimator.last_load == 0,
    {
        CoolStep {
            load_estimator: LoadEstimator::new(load_config),
            config,
            current_scale: FULL_SCALE,
            enabled: false,
            total_savings: 0,
        }
    }

    /// Lets the reducer adapt the current.
    pub fn enable(&mut self)
        ensures
            final(self)@ == (CoolStepModel { enabled: true, ..old(self)@ }),
    {
        self.enabled = true;
    }

    /// Stops the reducer and restores the full current.
    pub fn disable(&mut self)
        ensures
            final(self)@ == (CoolStepModel {
                enabled: false,
                current_scale: FULL_SCALE,
                ..old(self)@
            }),
    {
        self.enabled = false;
        self.current_scale = FULL_SCALE;
    }

    /// Whether the reducer adapts the current.
    pub fn is_enabled(&self) -> (e: bool)
        ensures
            e == self@.enabled,
    {
        self.enabled
    }

    /// Takes in one current sample.
    pub fn update_load(&mut self, current_q: i32)
        ensures
            final(self)@ == (CoolStepModel {
                estimator: LoadModel {
                    history: old(self)@.estimator.history.pushed(
                        current_magnitude(current_q),
                        LOAD_WINDOW as nat,
                    ),
                    ..old(self)@.estimator
                },
                ..old(self)@
            }),
    {
        self.load_estimator.update(current_q);
    }

    /// One cycle of adaptation; returns the current scale. A disabled reducer
    /// answers with the full scale and changes nothing.
    pub fn calculate_scale(&mut self) -> (scale: i32)
        requires
            old(self)@.config.is_valid(),
        ensures
            !old(self)@.enabled ==> scale == FULL_SCALE && final(self)@ == old(self)@,
            old(self)@.enabled ==> scale == old(self)@.config.next_scale(
                old(self)@.current_scale as int,
                old(self)@.estimator.load(),
            ) && final(self)@ == (CoolStepModel {
                current_scale: scale,
                estimator: LoadModel {
                    last_load: old(self)@.estimator.load() as i32,
                    ..old(self)@.estimator
                },
                ..old(self)@
            }),
            old(self)@.enabled ==> old(self)@.config.min_current_percent <= scale
                <= old(self)@.config.max_current_scale,
    {
        if !self.enabled {
            return FULL_SCALE;
        }
        let load: i64 = self.load_estimator.estimate_load() as i64;
        let low: i64 = self.config.min_current_percent as i64;
        let high: i64 = self.config.max_current_scale as i64;
        let target: i64 = if load < self.config.reduction_threshold as i64 {
            let span: i64 = high - low;
            assert(0 <= span * load <= 0x1_0000_0000 * 15_000) by (nonlinear_arith)
                requires
                    0 <= span <= 0x1_0000_0000,
                    0 <= load <= 15_000,
            ;
            assert(0 <= (span * load) / (self.config.reduction_threshold as int)
                <= 0x1_0000_0000 * 15_000) by (nonlinear_arith)
                requires
                    0 <= span * load <= 0x1_0000_0000 * 15_000,
                    self.config.reduction_threshold > 0,
            ;
            low + (span * load) / self.config.reduction_threshold as i64
        } else {
            high
        };
        let step: i64 = self.config.max_change_per_cycle as i64;
        let change: i64 = clamp_between(target - self.current_scale as i64, -step, step);
        let next: i64 = clamp_between(self.current_scale as i64 + change, low, high);
        self.current_scale = next as i32;
        self.current_scale
    }

    /// The current scale.
    pub fn current_scale(&self) -> (s: i32)
        ensures
            s == self@.current_scale,
    {
        self.current_scale
    }

    /// The load estimator of the reducer.
    pub fn load_estimator(&self) -> (e: &LoadEstimator)
        ensures
            e@ == self@.estimator,
    {
        &self.load_estimator
    }

    /// The part of the current that is saved at present, in hundredths of a
    /// percent; nothing while disabled.
    pub fn get_savings(&self) -> (saved: i64)
        ensures
            saved == if self@.enabled {
                FULL_SCALE - self@.current_scale
            } else {
                0
            },
    {
        if !self.enabled {
            return 0;
        }
        FULL_SCALE as i64 - self.current_scale as i64
    }

    /// Adds the energy saved during `dt_ms` milliseconds at a power of
    /// `power_mw` milliwatts: the part of the power that the scale leaves
    /// out, rounded down, times the duration, in µJ. The sum saturates.
    pub fn update_energy_savings(&mut self, dt_ms: u32, power_mw: u32)
        requires
            old(self)@.current_scale <= FULL_SCALE,
        ensures
            !old(self)@.enabled ==> final(self)@ == old(self)@,
            old(self)@.enabled ==> final(self)@ == (CoolStepModel {
                savings: {
                    let saved = (power_mw * (FULL_SCALE - old(self)@.current_scale))
                        / (FULL_SCALE as int);
                    let sum = old(self)@.savings + saved * dt_ms;
                    if sum > u64::MAX {
                        u64::MAX
                    } else {
                        sum as u64
                    }
                },
                ..old(self)@
            }),
    {
        if self.enabled {
            let left_out: u128 = (FULL_SCALE as i64 - self.current_scale as i64) as u128;
            assert(power_mw * left_out <= 0xFFFF_FFFF * 0x1_0000_0000) by (nonlinear_arith)
                requires
                    0 <= power_mw <= 0xFFFF_FFFF,
                    0 <= left_out <= 0x1_0000_0000,
            ;
            let saved: u128 = (power_mw as u128 * left_out) / 10_000;
            assert(saved * dt_ms <= 0xFFFF_FFFF * 0x1_0000_0000 * 0xFFFF_FFFF) by (nonlinear_arith)
                requires
                    0 <= saved <= 0xFFFF_FFFF * 0x1_0000_0000,
                    0 <= dt_ms <= 0xFFFF_FFFF,
            ;
            let sum: u128 = self.total_savings as u128 + saved * dt_ms as u128;
            self.total_savings = if sum > 0xFFFF_FFFF_FFFF_FFFF {
                u64::MAX
            } else {
                sum as u64
            };
        }
    }

    /// The energy saved so far, in millionths of a watt-hour, rounded down.
    pub fn total_savings_wh(&self) -> (saved: u64)
        ensures
            saved == self@.savings / 3600,
    {
        self.total_savings / 3600
    }

    /// Forgets the energy saved so far.
    pub fn reset_savings(&mut self)
        ensures
            final(self)@ == (CoolStepModel { savings: 0, ..old(self)@ }),
    {
        self.total_savings = 0;
    }

    /// The configuration in force.
    pub fn config(&self) -> (c: CoolStepConfig)
        ensures
            c == self@.config,
    {
        self.config
    }

    /// Replaces the configuration.
    pub fn set_config(&mut self, config: CoolStepConfig)
        requires
            config.is_valid(),
        ensures
            final(self)@ == (CoolStepModel { config, ..old(self)@ }),
    {
        self.config = config;
    }
}

impl Default for CoolStep {
    fn default() -> (c: Self)
        ensures
            c@.config == CoolStepConfig::standard(),
            c@.estimator.config == LoadEstimatorConfig::standard(),
            c@.current_scale == FULL_SCALE,
            !c@.enabled,
    {
        CoolStep::new(LoadEstimatorConfig::default(), CoolStepConfig::default())
    }
}

/// Velocity derating configuration. Loads in hundredths of a percent, scales
/// in ten-thousandths.
#[derive(Clone, Copy, Debug, PartialEq, Eq, Structural)]
pub struct DcStepConfig {
    /// Load at which derating begins.
    pub load_threshold: i32,
    /// Largest reduction of the velocity before the critical load.
    pub max_derating: i32,
    /// Load from which the velocity is at its minimum.
    pub critical_threshold: i32,
    /// Smallest velocity scale.
    pub min_velocity_scale: i32,
}

impl DcStepConfig {
    /// Derating from 70 % load by up to 20 %, critical from 90 % load, never
    /// below 80 % velocity.
    pub open spec fn standard() -> DcStepConfig {
        DcStepConfig {
            load_threshold: 7_000,
            max_derating: 2_000,
            critical_threshold: 9_000,
            min_velocity_scale: 8_000,
        }
    }

    /// The smallest scale is not above the full scale.
    pub open spec fn is_valid(self) -> bool {
        self.min_velocity_scale <= FULL_SCALE
    }

    /// The velocity scale under a load of `load`: full below the threshold;
    /// from there to the critical load reduced evenly by up to the largest
    /// derating, the reduction rounded toward zero; at the minimum from the critical load on; and
    /// never outside the interval from the smallest to the full scale.
    pub open spec fn scale_at(self, load: int) -> int {
        let raw = if load < self.load_threshold {
            FULL_SCALE as int
        } else if load < self.critical_threshold {
            FULL_SCALE - quot(
                self.max_derating * (load - self.load_threshold),
                self.critical_threshold - self.load_threshold,
            )
        } else {
            self.min_velocity_scale as int
        };
        clamped(raw, self.min_velocity_scale as int, FULL_SCALE as int)
    }

    /// Whether the configuration is valid.
    pub fn validate(&self) -> (ok: bool)
        ensures
            ok == self.is_valid(),
    {
        self.min_velocity_scale <= FULL_SCALE
    }
}

impl Default for DcStepConfig {
    fn default() -> (c: Self)
        ensures
            c == DcStepConfig::standard(),
    {
        DcStepConfig {
            load_threshold: 7_000,
            max_derating: 2_000,
            critical_threshold: 9_000,
            min_velocity_scale: 8_000,
        }
    }
}

/// What a velocity derater holds.
pub struct DcStepModel {
    pub config: DcStepConfig,
    pub velocity_scale: i32,
    pub enabled: bool,
}

/// Reduces the velocity at high load to prevent a stall.
pub struct DcStep {
    config: DcStepConfig,
    velocity_scale: i32,
    enabled: bool,
}

impl View for DcStep {
    type V = DcStepModel;

    closed spec fn view(&self) -> DcStepModel {
        DcStepModel {
            config: self.config,
            velocity_scale: self.velocity_scale,
            enabled: self.enabled,
        }
    }
}

impl DcStep {
    /// A disabled derater at full velocity.
    pub fn new(config: DcStepConfig) -> (d: Self)
        requires
            config.is_valid(),
        ensures
            d@ == (DcStepModel { config, velocity_scale: FULL_SCALE, enabled: false }),
    {
        DcStep { config, velocity_scale: FULL_SCALE, enabled: false }
    }

    /// Lets the derater adapt the velocity.
    pub fn enable(&mut self)
        ensures
            final(self)@ == (DcStepModel { enabled: true, ..old(self)@ }),
    {
        self.enabled = true;
    }

    /// Stops the derater and restores the full velocity.
    pub fn disable(&mut self)
        ensures
            final(self)@ == (DcStepModel {
                enabled: false,
                velocity_scale: FULL_SCALE,
                ..old(self)@
            }),
    {
        self.enabled = false;
        self.velocity_scale = FULL_SCALE;
    }

    /// Whether the derater adapts the velocity.
    pub fn is_enabled(&self) -> (e: bool)
        ensures
            e == self@.enabled,
    {
        self.enabled
    }

    /// The velocity scale under a load of `load`. A disabled derater answers
    /// with the full scale and changes nothing.
    pub fn update(&mut self, load: i32) -> (scale: i32)
        requires
            old(self)@.config.is_valid(),
        ensures
            !old(self)@.enabled ==> scale == FULL_SCALE && final(self)@ == old(self)@,
            old(self)@.enabled ==> scale == old(self)@.config.scale_at(load as int)
                && final(self)@ == (DcStepModel { velocity_scale: scale, ..old(self)@ }),
            old(self)@.enabled ==> old(self)@.config.min_velocity_scale <= scale <= FULL_SCALE,
    {
        if !self.enabled {
            return FULL_SCALE;
        }
        let raw: i64 = if load < self.config.load_threshold {
            FULL_SCALE as i64
        } else if load < self.config.critical_threshold {
            let excess: i64 = load as i64 - self.config.load_threshold as i64;
            let range: i64 = self.config.critical_threshold as i64
                - self.config.load_threshold as i64;
            let derating: i64 = self.config.max_derating as i64;
            assert(-0x8000_0000 * 0xFFFF_FFFF <= derating * excess <= 0x7fff_ffff * 0xFFFF_FFFF)
                by (nonlinear_arith)
                requires
                    -0x8000_0000 <= derating <= 0x7fff_ffff,
                    0 <= excess <= 0xFFFF_FFFF,
            ;
            let numerator: i64 = derating * excess;
            proof {
                lemma_quot_bound(numerator as int, range as int);
            }
            let reduction: i64 = div_toward_zero(numerator as i128, range as i128) as i64;
            FULL_SCALE as i64 - reduction
        } else {
            self.config.min_velocity_scale as i64
        };
        let scale: i64 = clamp_between(raw, self.config.min_velocity_scale as i64, FULL_SCALE as i64);
        self.velocity_scale = scale as i32;
        self.velocity_scale
    }

    /// The velocity scale.
    pub fn velocity_scale(&self) -> (s: i32)
        ensures
            s == self@.velocity_scale,
    {
        self.velocity_scale
    }

    /// Whether the velocity is being reduced.
    pub fn is_derating(&self) -> (d: bool)
        ensures
            d == (self@.enabled && self@.velocity_scale < FULL_SCALE),
    {
        self.enabled && self.velocity_scale < FULL_SCALE
    }

    /// The reduction of the velocity in hundredths of a percent; nothing
    /// while disabled.
    pub fn derating_percent(&self) -> (reduction: i64)
        ensures
            reduction == if self@.enabled {
                FULL_SCALE - self@.velocity_scale
            } else {
                0
            },
    {
        if !self.enabled {
            return 0;
        }
        FULL_SCALE as i64 - self.velocity_scale as i64
    }

    /// The configuration in force.
    pub fn config(&self) -> (c: DcStepConfig)
        ensures
            c == self@.config,
    {
        self.config
    }

    /// Replaces the configuration.
    pub fn set_config(&mut self, config: DcStepConfig)
        requires
            config.is_valid(),
        ensures
            final(self)@ == (DcStepModel { config, ..old(self)@ }),
    {
        self.config = config;
    }
}

impl Default for DcStep {
    fn default() -> (d: Self)
        ensures
            d@ == (DcStepModel {
                config: DcStepConfig::standard(),
                velocity_scale: FULL_SCALE,
                enabled: false,
            }),
    {
        DcStep::new(DcStepConfig::default())
    }
}

/// What the stall detector has concluded.
#[derive(Clone, Copy, Debug, PartialEq, Eq, Structural)]
pub enum StallStatus {
    Normal,
    Warning,
    Stalled,
}

/// Stall detector configuration. Current and velocity in Q16.16, the warning
/// threshold in hundredths of a percent of load.
#[derive(Clone, Copy, Debug, PartialEq, Eq, Structural)]
pub struct StallGuardConfig {
    pub current_threshold: i32,
    pub velocity_threshold: i32,
    pub duration_threshold_ms: u32,
    pub warning_threshold_percent: i32,
}

impl StallGuardConfig {
    /// 2.5 A, 0.05 rad/s, 100 ms, warning from 70 % load; the velocity
    /// rounded to the nearest Q16.16 number.
    pub open spec fn standard() -> StallGuardConfig {
        StallGuardConfig {
            current_threshold: 163_840,
            velocity_threshold: 3_277,
            duration_threshold_ms: 100,
            warning_threshold_percent: 7_000,
        }
    }
}

impl Default for StallGuardConfig {
    fn default() -> (c: Self)
        ensures
            c == StallGuardConfig::standard(),
    {
        StallGuardConfig {
            current_threshold: 163_840,
            velocity_threshold: 3_277,
            duration_threshold_ms: 100,
            warning_threshold_percent: 7_000,
        }
    }
}

/// What a stall detector holds.
pub struct StallModel {
    pub config: StallGuardConfig,
    /// How long the stall condition has lasted, in ms.
    pub stall_counter_ms: u32,
    pub status: StallStatus,
    pub enabled: bool,
    /// Time of the last update; `None` before the first.
    pub last_update_time_us: Option<u64>,
}

impl StallModel {
    /// Whole milliseconds from the last update to `now`, as far as 32 bits
    /// hold them; none before the first update, nor when the clock has run
    /// backwards.
    pub open spec fn elapsed_ms(self, now: u64) -> u32 {
        match self.last_update_time_us {
            Some(last) => if now >= last {
                (((now - last) / 1000) % 0x1_0000_0000) as u32
            } else {
                0u32
            },
            None => 0u32,
        }
    }

    /// Whether the readings look like a stall: a current at or above the
    /// threshold at a velocity at or below the threshold, both by magnitude.
    pub open spec fn stall_condition(self, current_q: i32, velocity: i32) -> bool {
        current_magnitude(current_q) >= self.config.current_threshold && current_magnitude(
            velocity,
        ) <= self.config.velocity_threshold
    }

    /// The detector after an update at time `now`.
    ///
    /// Under the stall condition the counter runs, and the status is a
    /// warning until the counter reaches the duration threshold, then a
    /// stall. Without it a load at or above the warning threshold is a
    /// warning under which the counter runs back; anything else is normal
    /// and empties the counter. A disabled detector changes nothing.
    pub open spec fn updated(self, current_q: i32, velocity: i32, load: i32, now: u64) -> StallModel {
        if !self.enabled {
            self
        } else {
            let dt = self.elapsed_ms(now);
            if self.stall_condition(current_q, velocity) {
                let counter: u32 = if self.stall_counter_ms + dt > u32::MAX {
                    u32::MAX
                } else {
                    (self.stall_counter_ms + dt) as u32
                };
                StallModel {
                    stall_counter_ms: counter,
                    status: if counter >= self.config.duration_threshold_ms {
                        StallStatus::Stalled
                    } else {
                        StallStatus::Warning
                    },
                    last_update_time_us: Some(now),
                    ..self
                }
            } else if load >= self.config.warning_threshold_percent {
                StallModel {
                    stall_counter_ms: if self.stall_counter_ms >= dt {
                        (self.stall_counter_ms - dt) as u32
                    } else {
                        0u32
                    },
                    status: StallStatus::Warning,
                    last_update_time_us: Some(now),
                    ..self
                }
            } else {
                StallModel {
                    stall_counter_ms: 0,
                    status: StallStatus::Normal,
                    last_update_time_us: Some(now),
                    ..self
                }
            }
        }
    }

    /// How sure the detector is of a stall, in hundredths of a percent: the
    /// part of the duration threshold that the counter has reached, at most
    /// 100 %; nothing while disabled.
    pub open spec fn sureness(self) -> int {
        if !self.enabled {
            0
        } else if self.config.duration_threshold_ms == 0 {
            FULL_LOAD as int
        } else {
            clamped(
                (self.stall_counter_ms * FULL_LOAD) / (self.config.duration_threshold_ms as int),
                0,
                FULL_LOAD as int,
            )
        }
    }
}

/// Detects a stalled motor from a high current at a low velocity.
pub struct StallGuard {
    config: StallGuardConfig,
    stall_counter_ms: u32,
    status: StallStatus,
    enabled: bool,
    last_update_time_us: Option<u64>,
}

impl View for StallGuard {
    type V = StallModel;

    closed spec fn view(&self) -> StallModel {
        StallModel {
            config: self.config,
            stall_counter_ms: self.stall_counter_ms,
            status: self.status,
            enabled: self.enabled,
            last_update_time_us: self.last_update_time_us,
        }
    }
}

/// The magnitude of a Q16.16 number, limited to its range.
fn magnitude_of(x: i32) -> (m: i32)
    ensures
        m == current_magnitude(x),
        m >= 0,
{
    if x == i32::MIN {
        i32::MAX
    } else if x < 0 {
        -x
    } else {
        x
    }
}

impl StallGuard {
    /// A disabled detector that has seen nothing.
    pub fn new(config: StallGuardConfig) -> (g: Self)
        ensures
            g@ == (StallModel {
                config,
                stall_counter_ms: 0,
                status: StallStatus::Normal,
                enabled: false,
                last_update_time_us: None,
            }),
    {
        StallGuard {
            config,
            stall_counter_ms: 0,
            status: StallStatus::Normal,
            enabled: false,
            last_update_time_us: None,
        }
    }

    /// Lets the detector watch.
    pub fn enable(&mut self)
        ensures
            final(self)@ == (StallModel { enabled: true, ..old(self)@ }),
    {
        self.enabled = true;
    }

    /// Stops the detector and clears what it has concluded.
    pub fn disable(&mut self)
        ensures
            final(self)@ == (StallModel {
                enabled: false,
                status: StallStatus::Normal,
                stall_counter_ms: 0,
                ..old(self)@
            }),
    {
        self.enabled = false;
        self.status = StallStatus::Normal;
        self.stall_counter_ms = 0;
    }

    /// Whether the detector watches.
    pub fn is_enabled(&self) -> (e: bool)
        ensures
            e == self@.enabled,
    {
        self.enabled
    }

    /// Takes in the readings at time `current_time_us`; returns the status. A
    /// disabled detector answers `Normal` and changes nothing.
    pub fn update(
        &mut self,
        current_q: i32,
        velocity: i32,
        load_percent: i32,
        current_time_us: u64,
    ) -> (status: StallStatus)
        ensures
            final(self)@ == old(self)@.updated(current_q, velocity, load_percent, current_time_us),
            status == if old(self)@.enabled {
                final(self)@.status
            } else {
                StallStatus::Normal
            },
    {
        if !self.enabled {
            return StallStatus::Normal;
        }
        let dt_ms: u32 = match self.last_update_time_us {
            Some(last) => if current_time_us >= last {
                (((current_time_us - last) / 1000) % 0x1_0000_0000) as u32
            } else {
                0
            },
            None => 0,
        };
        self.last_update_time_us = Some(current_time_us);
        let high_current: bool = magnitude_of(current_q) >= self.config.current_threshold;
        let low_velocity: bool = magnitude_of(velocity) <= self.config.velocity_threshold;
        if high_current && low_velocity {
            self.stall_counter_ms = self.stall_counter_ms.saturating_add(dt_ms);
            if self.stall_counter_ms >= self.config.duration_threshold_ms {
                self.status = StallStatus::Stalled;
            } else {
                self.status = StallStatus::Warning;
            }
        } else if load_percent >= self.config.warning_threshold_percent {
            self.status = StallStatus::Warning;
            self.stall_counter_ms = self.stall_counter_ms.saturating_sub(dt_ms);
        } else {
            self.status = StallStatus::Normal;
            self.stall_counter_ms = 0;
        }
        self.status
    }

    /// Whether a stall has been detected.
    pub fn is_stalled(&self) -> (s: bool)
        ensures
            s == (self@.status is Stalled),
    {
        match self.status {
            StallStatus::Stalled => true,
            _ => false,
        }
    }

    /// Whether the detector warns.
    pub fn is_warning(&self) -> (w: bool)
        ensures
            w == (self@.status is Warning),
    {
        match self.status {
            StallStatus::Warning => true,
            _ => false,
        }
    }

    /// The status last concluded.
    pub fn status(&self) -> (s: StallStatus)
        ensures
            s == self@.status,
    {
        self.status
    }

    /// How sure the detector is of a stall, in hundredths of a percent.
    pub fn confidence(&self) -> (c: i32)
        ensures
            c == self@.sureness(),
            0 <= c <= FULL_LOAD,
    {
        if !self.enabled {
            return 0;
        }
        if self.config.duration_threshold_ms == 0 {
            return FULL_LOAD;
        }
        let ratio: u64 = (self.stall_counter_ms as u64 * 10_000)
            / self.config.duration_threshold_ms as u64;
        if ratio > FULL_LOAD as u64 {
            FULL_LOAD
        } else {
            ratio as i32
        }
    }

    /// Clears the counter and the status.
    pub fn reset(&mut self)
        ensures
            final(self)@ == (StallModel {
                stall_counter_ms: 0,
                status: StallStatus::Normal,
                ..old(self)@
            }),
    {
        self.stall_counter_ms = 0;
        self.status = StallStatus::Normal;
    }

    /// The configuration in force.
    pub fn config(&self) -> (c: StallGuardConfig)
        ensures
            c == self@.config,
    {
        self.config
    }

    /// Replaces the configuration.
    pub fn set_config(&mut self, config: StallGuardConfig)
        ensures
            final(self)@ == (StallModel { config, ..old(self)@ }),
    {
        self.config = config;
    }
}

impl Default for StallGuard {
    fn default() -> (g: Self)
        ensures
            g@.config == StallGuardConfig::standard(),
            !g@.enabled,
            g@.status is Normal,
    {
        StallGuard::new(StallGuardConfig::default())
    }
}

/// The three adaptations together.
pub struct AdaptiveController {
    pub coolstep: CoolStep,
    pub dcstep: DcStep,
    pub stallguard: StallGuard,
}

impl AdaptiveController {
    /// A controller with all three adaptations disabled.
    pub fn new(
        load_config: LoadEstimatorConfig,
        coolstep_config: CoolStepConfig,
        dcstep_config: DcStepConfig,
        stallguard_config: StallGuardConfig,
    ) -> (c: Self)
        requires
            coolstep_config.is_valid(),
            dcstep_config.is_valid(),
        ensures
            c.coolstep@.config == coolstep_config,
            c.coolstep@.estimator.config == load_config,
            c.dcstep@.config == dcstep_config,
            c.stallguard@.config == stallguard_config,
            !c.coolstep@.enabled && !c.dcstep@.enabled && !c.stallguard@.enabled,
    {
        AdaptiveController {
            coolstep: CoolStep::new(load_config, coolstep_config),
            dcstep: DcStep::new(dcstep_config),
            stallguard: StallGuard::new(stallguard_config),
        }
    }

    /// One cycle: takes in the current, adapts the current scale, and hands
    /// the load last estimated to the velocity derater and to the stall
    /// detector. Returns the current scale, the velocity scale and the stall
    /// status.
    pub fn update(&mut self, current_q: i32, velocity: i32, current_time_us: u64) -> (r: (
        i32,
        i32,
        StallStatus,
    ))
        requires
            old(self).coolstep@.config.is_valid(),
            old(self).dcstep@.config.is_valid(),
        ensures
            final(self).coolstep@.config == old(self).coolstep@.config,
            final(self).dcstep@.config == old(self).dcstep@.config,
            final(self).stallguard@ == old(self).stallguard@.updated(
                current_q,
                velocity,
                final(self).coolstep@.estimator.last_load,
                current_time_us,
            ),
            r.0 == if old(self).coolstep@.enabled {
                final(self).coolstep@.current_scale
            } else {
                FULL_SCALE
            },
            r.1 == if old(self).dcstep@.enabled {
                old(self).dcstep@.config.scale_at(
                    final(self).coolstep@.estimator.last_load as int,
                )
            } else {
                FULL_SCALE as int
            },
            r.2 == if old(self).stallguard@.enabled {
                final(self).stallguard@.status
            } else {
                StallStatus::Normal
            },
    {
        self.coolstep.update_load(current_q);
        let current_scale: i32 = self.coolstep.calculate_scale();
        let load: i32 = self.coolstep.load_estimator().last_load();
        let velocity_scale: i32 = self.dcstep.update(load);
        let stall_status = self.stallguard.update(current_q, velocity, load, current_time_us);
        (current_scale, velocity_scale, stall_status)
    }

    /// Enables all three adaptations.
    pub fn enable_all(&mut self)
        ensures
            final(self).coolstep@ == (CoolStepModel { enabled: true, ..old(self).coolstep@ }),
            final(self).dcstep@ == (DcStepModel { enabled: true, ..old(self).dcstep@ }),
            final(self).stallguard@ == (StallModel { enabled: true, ..old(self).stallguard@ }),
    {
        self.coolstep.enable();
        self.dcstep.enable();
        self.stallguard.enable();
    }

    /// Disables all three adaptations and restores full current and
    /// velocity.
    pub fn disable_all(&mut self)
        ensures
            !final(self).coolstep@.enabled,
            !final(self).dcstep@.enabled,
            !final(self).stallguard@.enabled,
            final(self).coolstep@.current_scale == FULL_SCALE,
            final(self).dcstep@.velocity_scale == FULL_SCALE,
            final(self).stallguard@.status is Normal,
    {
        self.coolstep.disable();
        self.dcstep.disable();
        self.stallguard.disable();
    }

    /// The load last estimated.
    pub fn load(&self) -> (load: i32)
        ensures
            load == self.coolstep@.estimator.last_load,
    {
        self.coolstep.load_estimator().last_load()
    }
}

impl Default for AdaptiveController {
    fn default() -> (c: Self)
        ensures
            c.coolstep@.config == CoolStepConfig::standard(),
            c.dcstep@.config == DcStepConfig::standard(),
            c.stallguard@.config == StallGuardConfig::standard(),
    {
        AdaptiveController::new(
            LoadEstimatorConfig::default(),
            CoolStepConfig::default(),
            DcStepConfig::default(),
            StallGuardConfig::default(),
        )
    }
}

/// A stall is reported only after the stall condition has lasted as long as
/// the duration threshold asks, and a reading without it takes the report
/// back at once.
pub proof fn lemma_stall_needs_its_duration(
    m: StallModel,
    current_q: i32,
    velocity: i32,
    load: i32,
    now: u64,
)
    requires
        m.enabled,
    ensures
        m.updated(current_q, velocity, load, now).status is Stalled ==> m.stall_condition(
            current_q,
            velocity,
        ) && m.updated(current_q, velocity, load, now).stall_counter_ms
            >= m.config.duration_threshold_ms,
        !m.stall_condition(current_q, velocity) ==> !(m.updated(
            current_q,
            velocity,
            load,
            now,
        ).status is Stalled),
{
}

} // verus!
