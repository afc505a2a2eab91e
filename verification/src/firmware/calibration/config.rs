//! Calibration configuration, as delivered once by the command layer.

use vstd::prelude::*;

verus! {

/// Bit index of the inertia phase in `CalibrationConfig::phases`.
pub const PHASE_INERTIA: u8 = 0;

/// Bit index of the friction phase.
pub const PHASE_FRICTION: u8 = 1;

/// Bit index of the torque-constant phase.
pub const PHASE_TORQUE_CONSTANT: u8 = 2;

/// Bit index of the damping phase.
pub const PHASE_DAMPING: u8 = 3;

/// Bit index of the validation phase.
pub const PHASE_VALIDATION: u8 = 4;

/// Largest admissible `max_current`: 15 A.
pub const MAX_CURRENT_CEILING: i32 = 15_000_000;

/// Largest admissible `max_velocity`: 10 rad/s.
pub const MAX_VELOCITY_CEILING: i32 = 10_000_000;

/// Limits and phase selection of one calibration run.
///
/// `max_current` is in µA, `max_velocity` in µrad/s, `max_position_range` and
/// `home_position` in µrad, `phase_timeout` in µs.
#[derive(Debug, Clone, Copy, PartialEq, Eq, Structural)]
pub struct CalibrationConfig {
    /// Phases to run, one bit per phase index.
    pub phases: u8,
    pub max_current: i32,
    pub max_velocity: i32,
    pub max_position_range: i32,
    pub phase_timeout: i64,
    pub return_home: bool,
    pub home_position: i32,
}

impl CalibrationConfig {
    /// `0 < max_current <= 15 A`.
    pub open spec fn current_ok(&self) -> bool {
        0 < self.max_current <= MAX_CURRENT_CEILING
    }

    /// `0 < max_velocity <= 10 rad/s`.
    pub open spec fn velocity_ok(&self) -> bool {
        0 < self.max_velocity <= MAX_VELOCITY_CEILING
    }

    /// Every limit lies in its documented domain.
    pub open spec fn is_valid(&self) -> bool {
        &&& self.current_ok()
        &&& self.velocity_ok()
        &&& self.max_position_range > 0
        &&& self.phase_timeout > 0
    }

    /// The message of the first limit, in field order, that is out of its
    /// domain.
    pub open spec fn first_fault(&self) -> Seq<char>
        recommends
            !self.is_valid(),
    {
        if !self.current_ok() {
            "Invalid max_current"@
        } else if !self.velocity_ok() {
            "Invalid max_velocity"@
        } else if self.max_position_range <= 0 {
            "Invalid max_position_range"@
        } else {
            "Invalid phase_timeout"@
        }
    }

    /// Checks every limit; reports the first one that is out of its domain.
    pub fn validate(&self) -> (r: Result<(), &'static str>)
        ensures
            r is Ok <==> self.is_valid(),
            r matches Err(msg) ==> msg@ == self.first_fault(),
    {
        if self.max_current <= 0 || self.max_current > MAX_CURRENT_CEILING {
            return Err("Invalid max_current");
        }
        if self.max_velocity <= 0 || self.max_velocity > MAX_VELOCITY_CEILING {
            return Err("Invalid max_velocity");
        }
        if self.max_position_range <= 0 {
            return Err("Invalid max_position_range");
        }
        if self.phase_timeout <= 0 {
            return Err("Invalid phase_timeout");
        }
        Ok(())
    }

    /// Whether bit `phase` of the selection mask is set. Indices past the
    /// mask's width select nothing.
    pub open spec fn selects(&self, phase: u8) -> bool {
        phase < 8 && (self.phases >> phase) & 1u8 == 1u8
    }

    /// Whether bit `phase` of the selection mask is set.
    pub fn phase_enabled(&self, phase: u8) -> (on: bool)
        ensures
            on == self.selects(phase),
    {
        phase < 8 && (self.phases >> phase) & 1u8 == 1u8
    }
}

/// An empty mask selects no phase.
pub proof fn lemma_empty_mask_selects_nothing(c: CalibrationConfig, phase: u8)
    requires
        c.phases == 0,
    ensures
        !c.selects(phase),
{
    let m = c.phases;
    assert(m == 0u8 && phase < 8u8 ==> (m >> phase) & 1u8 != 1u8) by (bit_vector);
}

} // verus!
