//! Proportional position controller: a velocity setpoint from the position
//! error. All quantities are Q16.16 numbers given by their raw bits.

use vstd::prelude::*;
use super::fixed_point::{checked_difference, checked_product, fits, limit_to, limited, product};

verus! {

/// Position controller configuration.
#[derive(Clone, Copy, Debug, PartialEq, Eq, Structural)]
pub struct PositionConfig {
    /// Proportional gain (rad/s per rad of error).
    pub kp: i32,
    /// Largest velocity output (rad/s).
    pub max_velocity: i32,
}

impl PositionConfig {
    /// A gain of 10 and at most 50 rad/s.
    pub open spec fn standard() -> PositionConfig {
        PositionConfig { kp: 655_360, max_velocity: 3_276_800 }
    }
}

impl Default for PositionConfig {
    fn default() -> (c: Self)
        ensures
            c == PositionConfig::standard(),
    {
        PositionConfig { kp: 655_360, max_velocity: 3_276_800 }
    }
}

/// What a position controller holds.
pub struct PositionModel {
    pub config: PositionConfig,
    pub target: i32,
}

impl PositionModel {
    /// Whether the setpoint for `position` can be computed: the error and the
    /// gained error are Q16.16 numbers, and the limit can be negated.
    pub open spec fn defined_at(self, position: i32) -> bool {
        &&& fits(self.target - position)
        &&& fits(product(self.config.kp as int, self.target - position))
        &&& self.config.max_velocity > i32::MIN
    }

    /// The velocity setpoint for `position`: the gained error, limited to the
    /// largest velocity either way.
    pub open spec fn setpoint(self, position: i32) -> int {
        limited(
            product(self.config.kp as int, self.target - position),
            self.config.max_velocity as int,
        )
    }
}

/// Proportional position controller.
pub struct PositionController {
    config: PositionConfig,
    target: i32,
}

impl View for PositionController {
    type V = PositionModel;

    closed spec fn view(&self) -> PositionModel {
        PositionModel { config: self.config, target: self.target }
    }
}

impl PositionController {
    /// A controller with target 0.
    pub fn new(config: PositionConfig) -> (c: Self)
        ensures
            c@ == (PositionModel { config, target: 0 }),
    {
        PositionController { config, target: 0 }
    }

    /// Sets the target position.
    pub fn set_target(&mut self, position: i32)
        ensures
            final(self)@ == (PositionModel { target: position, ..old(self)@ }),
    {
        self.target = position;
    }

    /// The target position.
    pub fn target(&self) -> (t: i32)
        ensures
            t == self@.target,
    {
        self.target
    }

    /// The velocity setpoint for the present position, or `None` where it
    /// cannot be computed in Q16.16.
    pub fn try_update(&mut self, position: i32) -> (velocity: Option<i32>)
        ensures
            final(self)@ == old(self)@,
            velocity == if old(self)@.defined_at(position) {
                Some(old(self)@.setpoint(position) as i32)
            } else {
                None
            },
    {
        let error: i32 = match checked_difference(self.target, position) {
            Some(e) => e,
            None => {
                return None;
            },
        };
        let gained: i32 = match checked_product(self.config.kp, error) {
            Some(v) => v,
            None => {
                return None;
            },
        };
        if self.config.max_velocity == i32::MIN {
            return None;
        }
        Some(limit_to(gained, self.config.max_velocity))
    }

    /// The velocity setpoint for the present position.
    pub fn update(&mut self, position: i32) -> (velocity: i32)
        requires
            old(self)@.defined_at(position),
        ensures
            final(self)@ == old(self)@,
            velocity == old(self)@.setpoint(position),
    {
        match self.try_update(position) {
            Some(v) => v,
            None => 0,
        }
    }

    /// Replaces the configuration.
    pub fn set_config(&mut self, config: PositionConfig)
        ensures
            final(self)@ == (PositionModel { config, ..old(self)@ }),
    {
        self.config = config;
    }

    /// The configuration in force.
    pub fn config(&self) -> (c: PositionConfig)
        ensures
            c == self@.config,
    {
        self.config
    }
}

/// With a limit that is not negative, the setpoint never exceeds it either
/// way.
pub proof fn lemma_setpoint_within_limit(m: PositionModel, position: i32)
    requires
        m.config.max_velocity >= 0,
    ensures
        -m.config.max_velocity <= m.setpoint(position) <= m.config.max_velocity,
{
}

/// At the target the setpoint is zero.
pub proof fn lemma_no_error_no_motion(m: PositionModel)
    requires
        m.config.max_velocity >= 0,
    ensures
        m.setpoint(m.target) == 0,
        m.defined_at(m.target),
{
    assert(m.config.kp * 0 == 0);
}

} // verus!
