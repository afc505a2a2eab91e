//! Proportional-integral velocity controller with anti-windup: a current
//! setpoint from the velocity error. All quantities are Q16.16 numbers given
//! by their raw bits.

use vstd::prelude::*;
use super::fixed_point::{
    checked_difference,
    checked_product,
    checked_sum,
    fits,
    limit_to,
    limited,
    product,
};

verus! {

/// Velocity controller configuration.
#[derive(Clone, Copy, Debug, PartialEq, Eq, Structural)]
pub struct VelocityConfig {
    /// Proportional gain (A per rad/s of error).
    pub kp: i32,
    /// Integral gain (A per rad of error).
    pub ki: i32,
    /// Largest current output (A).
    pub max_current: i32,
}

impl VelocityConfig {
    /// Gains of 0.5 and 0.1, the latter rounded to the nearest Q16.16 number,
    /// and at most 5 A.
    pub open spec fn standard() -> VelocityConfig {
        VelocityConfig { kp: 32_768, ki: 6_554, max_current: 327_680 }
    }
}

impl Default for VelocityConfig {
    fn default() -> (c: Self)
        ensures
            c == VelocityConfig::standard(),
    {
        VelocityConfig { kp: 32_768, ki: 6_554, max_current: 327_680 }
    }
}

/// What a velocity controller holds.
pub struct VelocityModel {
    pub config: VelocityConfig,
    pub target: i32,
    /// The integral term, in A.
    pub integral: i32,
}

impl VelocityModel {
    /// The velocity error at `velocity`.
    pub open spec fn error(self, velocity: i32) -> int {
        self.target - velocity
    }

    /// The proportional term at `velocity`.
    pub open spec fn proportional(self, velocity: i32) -> int {
        product(self.config.kp as int, self.error(velocity))
    }

    /// What a step of `dt` seconds at `velocity` adds to the integral term:
    /// the error, gained and then scaled by the step, each rounded down.
    pub open spec fn increment(self, velocity: i32, dt: i32) -> int {
        product(product(self.config.ki as int, self.error(velocity)), dt as int)
    }

    /// The integral term after a step: the sum, limited to the largest
    /// current either way.
    pub open spec fn next_integral(self, velocity: i32, dt: i32) -> int {
        limited(self.integral + self.increment(velocity, dt), self.config.max_current as int)
    }

    /// The current setpoint of a step: the proportional term and the new
    /// integral term together, limited to the largest current either way.
    pub open spec fn setpoint(self, velocity: i32, dt: i32) -> int {
        limited(
            self.proportional(velocity) + self.next_integral(velocity, dt),
            self.config.max_current as int,
        )
    }

    /// Whether a step can be computed: every intermediate value is a Q16.16
    /// number, and the limit can be negated.
    pub open spec fn defined_at(self, velocity: i32, dt: i32) -> bool {
        &&& fits(self.error(velocity))
        &&& fits(self.proportional(velocity))
        &&& fits(product(self.config.ki as int, self.error(velocity)))
        &&& fits(self.increment(velocity, dt))
        &&& fits(self.integral + self.increment(velocity, dt))
        &&& self.config.max_current > i32::MIN
        &&& fits(self.proportional(velocity) + self.next_integral(velocity, dt))
    }
}

/// Proportional-integral velocity controller.
pub struct VelocityController {
    config: VelocityConfig,
    target: i32,
    integral: i32,
}

impl View for VelocityController {
    type V = VelocityModel;

    closed spec fn view(&self) -> VelocityModel {
        VelocityModel { config: self.config, target: self.target, integral: self.integral }
    }
}

impl VelocityController {
    /// A controller with target 0 and an empty integral term.
    pub fn new(config: VelocityConfig) -> (c: Self)
        ensures
            c@ == (VelocityModel { config, target: 0, integral: 0 }),
    {
        VelocityController { config, target: 0, integral: 0 }
    }

    /// Sets the target velocity.
    pub fn set_target(&mut self, velocity: i32)
        ensures
            final(self)@ == (VelocityModel { target: velocity, ..old(self)@ }),
    {
        self.target = velocity;
    }

    /// The target velocity.
    pub fn target(&self) -> (t: i32)
        ensures
            t == self@.target,
    {
        self.target
    }

    /// One step of `dt` seconds at the present velocity: the current
    /// setpoint, or `None`, with the controller unchanged, where the step
    /// cannot be computed in Q16.16.
    pub fn try_update(&mut self, velocity: i32, dt: i32) -> (current: Option<i32>)
        ensures
            old(self)@.defined_at(velocity, dt) ==> current == Some(
                old(self)@.setpoint(velocity, dt) as i32,
            ) && final(self)@ == (VelocityModel {
                integral: old(self)@.next_integral(velocity, dt) as i32,
                ..old(self)@
            }),
            !old(self)@.defined_at(velocity, dt) ==> current is None && final(self)@ == old(self)@,
    {
        let error: i32 = match checked_difference(self.target, velocity) {
            Some(e) => e,
            None => {
                return None;
            },
        };
        let p_term: i32 = match checked_product(self.config.kp, error) {
            Some(p) => p,
            None => {
                return None;
            },
        };
        let gained: i32 = match checked_product(self.config.ki, error) {
            Some(g) => g,
            None => {
                return None;
            },
        };
        let increment: i32 = match checked_product(gained, dt) {
            Some(i) => i,
            None => {
                return None;
            },
        };
        let summed: i32 = match checked_sum(self.integral, increment) {
            Some(s) => s,
            None => {
                return None;
            },
        };
        if self.config.max_current == i32::MIN {
            return None;
        }
        let integral: i32 = limit_to(summed, self.config.max_current);
        let output: i32 = match checked_sum(p_term, integral) {
            Some(o) => o,
            None => {
                return None;
            },
        };
        self.integral = integral;
        Some(limit_to(output, self.config.max_current))
    }

    /// One step of `dt` seconds at the present velocity: the current
    /// setpoint.
    pub fn update(&mut self, velocity: i32, dt: i32) -> (current: i32)
        requires
            old(self)@.defined_at(velocity, dt),
        ensures
            current == old(self)@.setpoint(velocity, dt),
            final(self)@ == (VelocityModel {
                integral: old(self)@.next_integral(velocity, dt) as i32,
                ..old(self)@
            }),
    {
        match self.try_update(velocity, dt) {
            Some(c) => c,
            None => 0,
        }
    }

    /// Empties the integral term.
    pub fn reset(&mut self)
        ensures
            final(self)@ == (VelocityModel { integral: 0, ..old(self)@ }),
    {
        self.integral = 0;
    }

    /// Replaces the configuration.
    pub fn set_config(&mut self, config: VelocityConfig)
        ensures
            final(self)@ == (VelocityModel { config, ..old(self)@ }),
    {
        self.config = config;
    }

    /// The configuration in force.
    pub fn config(&self) -> (c: VelocityConfig)
        ensures
            c == self@.config,
    {
        self.config
    }
}

/// Anti-windup: with a limit that is not negative, neither the integral term
/// nor the setpoint exceeds it either way.
pub proof fn lemma_output_within_limit(m: VelocityModel, velocity: i32, dt: i32)
    requires
        m.config.max_current >= 0,
    ensures
        -m.config.max_current <= m.next_integral(velocity, dt) <= m.config.max_current,
        -m.config.max_current <= m.setpoint(velocity, dt) <= m.config.max_current,
{
}

} // verus!
