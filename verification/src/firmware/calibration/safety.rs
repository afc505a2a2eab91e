//! Safety gate: every sample is held against five hard limits before the
//! calibration acts on it.

use vstd::prelude::*;
use super::config::CalibrationConfig;
use super::types::{ErrorCode, MeasurementSample};
use crate::firmware::units::{clamp_i64, magnitude, saturate_i64};

verus! {

/// Fixed temperature ceiling: 80 °C.
pub const TEMPERATURE_CEILING: i32 = 80_000_000;

/// What a safety monitor holds, as mathematical values.
pub struct MonitorModel {
    /// The limits that the monitor enforces.
    pub limits: CalibrationConfig,
    /// Position from which excursions are measured.
    pub home: int,
    /// Time at which the run started.
    pub started_at: int,
    /// Time at which the current phase started.
    pub phase_started_at: int,
}

impl MonitorModel {
    /// The excursion from home exceeds `max_position_range`.
    pub open spec fn position_violated(self, sample: MeasurementSample) -> bool {
        magnitude(sample.position - self.home) > self.limits.max_position_range
    }

    /// The speed exceeds `max_velocity` by more than a tenth.
    pub open spec fn velocity_violated(self, sample: MeasurementSample) -> bool {
        10 * magnitude(sample.velocity as int) > 11 * self.limits.max_velocity
    }

    /// The current exceeds `max_current` by more than a tenth.
    pub open spec fn current_violated(self, sample: MeasurementSample) -> bool {
        10 * magnitude(sample.current_iq as int) > 11 * self.limits.max_current
    }

    /// The temperature is above 80 °C.
    pub open spec fn temperature_violated(self, sample: MeasurementSample) -> bool {
        sample.temperature > TEMPERATURE_CEILING
    }

    /// The current phase has lasted longer than `phase_timeout`.
    pub open spec fn timed_out(self, sample: MeasurementSample) -> bool {
        sample.timestamp - self.phase_started_at > self.limits.phase_timeout
    }

    /// The outcome of the five checks, taken in their fixed order: position,
    /// velocity, current, temperature, time. The first violation decides.
    pub open spec fn verdict(self, sample: MeasurementSample) -> Result<(), ErrorCode> {
        if self.position_violated(sample) {
            Err(ErrorCode::PositionLimit)
        } else if self.velocity_violated(sample) {
            Err(ErrorCode::VelocityLimit)
        } else if self.current_violated(sample) {
            Err(ErrorCode::CurrentLimit)
        } else if self.temperature_violated(sample) {
            Err(ErrorCode::TemperatureLimit)
        } else if self.timed_out(sample) {
            Err(ErrorCode::Timeout)
        } else {
            Ok(())
        }
    }
}

/// Holds the limits of a run, its home position and its two time references.
/// Checking a sample never changes the monitor.
#[derive(Debug)]
pub struct SafetyMonitor {
    config: CalibrationConfig,
    start_time: i64,
    phase_start_time: i64,
    home_position: i32,
}

impl View for SafetyMonitor {
    type V = MonitorModel;

    closed spec fn view(&self) -> MonitorModel {
        MonitorModel {
            limits: self.config,
            home: self.home_position as int,
            started_at: self.start_time as int,
            phase_started_at: self.phase_start_time as int,
        }
    }
}

impl SafetyMonitor {
    /// A monitor whose run and first phase start at `current_time`, with
    /// `current_position` as home.
    pub fn new(config: CalibrationConfig, current_position: i32, current_time: i64) -> (m: Self)
        ensures
            m@ == (MonitorModel {
                limits: config,
                home: current_position as int,
                started_at: current_time as int,
                phase_started_at: current_time as int,
            }),
    {
        SafetyMonitor {
            config,
            start_time: current_time,
            phase_start_time: current_time,
            home_position: current_position,
        }
    }

    /// Starts the phase timer anew, so that the timeout is measured per phase.
    pub fn reset_phase_timer(&mut self, current_time: i64)
        ensures
            final(self)@ == (MonitorModel { phase_started_at: current_time as int, ..old(self)@ }),
    {
        self.phase_start_time = current_time;
    }

    /// Holds `sample` against the five limits. A sample that violates several
    /// of them is reported under the one that is checked first.
    pub fn check_safety(&self, sample: &MeasurementSample) -> (r: Result<(), ErrorCode>)
        ensures
            r == self@.verdict(*sample),
            self@.position_violated(*sample) ==> r == Err::<(), ErrorCode>(
                ErrorCode::PositionLimit,
            ),
            r is Ok <==> !self@.position_violated(*sample) && !self@.velocity_violated(*sample)
                && !self@.current_violated(*sample) && !self@.temperature_violated(*sample)
                && !self@.timed_out(*sample),
    {
        let excursion: i64 = sample.position as i64 - self.home_position as i64;
        let excursion_abs: i64 = if excursion < 0 {
            -excursion
        } else {
            excursion
        };
        if excursion_abs > self.config.max_position_range as i64 {
            return Err(ErrorCode::PositionLimit);
        }
        let speed: i64 = if sample.velocity < 0 {
            -(sample.velocity as i64)
        } else {
            sample.velocity as i64
        };
        if 10 * speed > 11 * (self.config.max_velocity as i64) {
            return Err(ErrorCode::VelocityLimit);
        }
        let current: i64 = if sample.current_iq < 0 {
            -(sample.current_iq as i64)
        } else {
            sample.current_iq as i64
        };
        if 10 * current > 11 * (self.config.max_current as i64) {
            return Err(ErrorCode::CurrentLimit);
        }
        if sample.temperature > TEMPERATURE_CEILING {
            return Err(ErrorCode::TemperatureLimit);
        }
        let phase_duration: i128 = sample.timestamp as i128 - self.phase_start_time as i128;
        if phase_duration > self.config.phase_timeout as i128 {
            return Err(ErrorCode::Timeout);
        }
        Ok(())
    }

    /// Time since the run started, limited to the range of `i64`.
    pub fn elapsed_time(&self, current_time: i64) -> (t: i64)
        ensures
            t == clamp_i64(current_time - self@.started_at),
    {
        saturate_i64(current_time as i128 - self.start_time as i128)
    }

    /// Time since the current phase started, limited to the range of `i64`.
    pub fn phase_elapsed(&self, current_time: i64) -> (t: i64)
        ensures
            t == clamp_i64(current_time - self@.phase_started_at),
    {
        saturate_i64(current_time as i128 - self.phase_start_time as i128)
    }
}

} // verus!
