//! Proportional-integral controllers of the current loops, with anti-windup.
//! All quantities are Q16.16 numbers given by their raw bits.

use vstd::prelude::*;
use crate::firmware::control::fixed_point::{
    checked_product,
    checked_sum,
    fits,
    limit_to,
    limited,
    product,
};

verus! {

/// Configuration of one controller.
#[derive(Clone, Copy, Debug, PartialEq, Eq, Structural)]
pub struct PiConfig {
    /// Proportional gain.
    pub kp: i32,
    /// Integral gain.
    pub ki: i32,
    /// Limit of the output and of the integral term, either way.
    pub limit: i32,
}

impl PiConfig {
    /// Gains of 1.0 and 0.1, the latter rounded to the nearest Q16.16 number,
    /// and a limit of 1.0.
    pub open spec fn standard() -> PiConfig {
        PiConfig { kp: 65_536, ki: 6_554, limit: 65_536 }
    }
}

impl Default for PiConfig {
    fn default() -> (c: Self)
        ensures
            c == PiConfig::standard(),
    {
        PiConfig { kp: 65_536, ki: 6_554, limit: 65_536 }
    }
}

/// What a controller holds.
pub struct PiModel {
    pub config: PiConfig,
    pub integral: i32,
}

impl PiModel {
    /// The proportional term for `error`.
    pub open spec fn proportional(self, error: i32) -> int {
        product(self.config.kp as int, error as int)
    }

    /// What a step of `dt` seconds adds to the integral term: the error,
    /// gained and then scaled by the step, each rounded down.
    pub open spec fn increment(self, error: i32, dt: i32) -> int {
        product(product(self.config.ki as int, error as int), dt as int)
    }

    /// The integral term after a step, kept within the limit.
    pub open spec fn next_integral(self, error: i32, dt: i32) -> int {
        limited(self.integral + self.increment(error, dt), self.config.limit as int)
    }

    /// The output of a step: both terms together, kept within the limit.
    pub open spec fn output(self, error: i32, dt: i32) -> int {
        limited(self.proportional(error) + self.next_integral(error, dt), self.config.limit as int)
    }

    /// Whether a step can be computed: every intermediate value is a Q16.16
    /// number, and the limit can be negated.
    pub open spec fn defined_at(self, error: i32, dt: i32) -> bool {
        &&& fits(self.proportional(error))
        &&& fits(product(self.config.ki as int, error as int))
        &&& fits(self.increment(error, dt))
        &&& fits(self.integral + self.increment(error, dt))
        &&& self.config.limit > i32::MIN
        &&& fits(self.proportional(error) + self.next_integral(error, dt))
    }
}

/// Proportional-integral controller in software.
pub struct SoftwarePiController {
    config: PiConfig,
    integral: i32,
}

impl View for SoftwarePiController {
    type V = PiModel;

    closed spec fn view(&self) -> PiModel {
        PiModel { config: self.config, integral: self.integral }
    }
}

impl SoftwarePiController {
    /// A controller with an empty integral term.
    pub fn new(config: PiConfig) -> (c: Self)
        ensures
            c@ == (PiModel { config, integral: 0 }),
    {
        SoftwarePiController { config, integral: 0 }
    }

    /// One step of `dt` seconds on `error`: the output, or `None`, with the
    /// controller unchanged, where the step cannot be computed in Q16.16.
    pub fn try_update(&mut self, error: i32, dt: i32) -> (out: Option<i32>)
        ensures
            old(self)@.defined_at(error, dt) ==> out == Some(old(self)@.output(error, dt) as i32)
                && final(self)@ == (PiModel {
                integral: old(self)@.next_integral(error, dt) as i32,
                ..old(self)@
            }),
            !old(self)@.defined_at(error, dt) ==> out is None && final(self)@ == old(self)@,
    {
        let p_term: i32 = match checked_product(self.config.kp, error) {
            Some(p) => p,
            None => {
                return None;
            },
        };
        let gained: i32 = match checked_product(self.config.ki, error) {
            Some(g) => g,
            None => {
                return None;
            },
        };
        let increment: i32 = match checked_product(gained, dt) {
            Some(i) => i,
            None => {
                return None;
            },
        };
        let summed: i32 = match checked_sum(self.integral, increment) {
            Some(s) => s,
            None => {
                return None;
            },
        };
        if self.config.limit == i32::MIN {
            return None;
        }
        let integral: i32 = limit_to(summed, self.config.limit);
        let output: i32 = match checked_sum(p_term, integral) {
            Some(o) => o,
            None => {
                return None;
            },
        };
        self.integral = integral;
        Some(limit_to(output, self.config.limit))
    }

    /// One step of `dt` seconds on `error`: the output.
    pub fn update(&mut self, error: i32, dt: i32) -> (out: i32)
        requires
            old(self)@.defined_at(error, dt),
        ensures
            out == old(self)@.output(error, dt),
            final(self)@ == (PiModel {
                integral: old(self)@.next_integral(error, dt) as i32,
                ..old(self)@
            }),
    {
        match self.try_update(error, dt) {
            Some(o) => o,
            None => 0,
        }
    }

    /// Empties the integral term.
    pub fn reset(&mut self)
        ensures
            final(self)@ == (PiModel { integral: 0, ..old(self)@ }),
    {
        self.integral = 0;
    }

    /// Replaces the configuration.
    pub fn set_config(&mut self, config: PiConfig)
        ensures
            final(self)@ == (PiModel { config, ..old(self)@ }),
    {
        self.config = config;
    }

    /// The configuration in force.
    pub fn config(&self) -> (c: PiConfig)
        ensures
            c == self@.config,
    {
        self.config
    }
}

/// The two current controllers of the d and q axes.
pub struct DualPiController {
    pub d_controller: SoftwarePiController,
    pub q_controller: SoftwarePiController,
}

impl DualPiController {
    /// Two controllers with empty integral terms.
    pub fn new(d_config: PiConfig, q_config: PiConfig) -> (c: Self)
        ensures
            c.d_controller@ == (PiModel { config: d_config, integral: 0 }),
            c.q_controller@ == (PiModel { config: q_config, integral: 0 }),
    {
        DualPiController {
            d_controller: SoftwarePiController::new(d_config),
            q_controller: SoftwarePiController::new(q_config),
        }
    }

    /// One step of both controllers.
    pub fn update(&mut self, d_error: i32, q_error: i32, dt: i32) -> (out: (i32, i32))
        requires
            old(self).d_controller@.defined_at(d_error, dt),
            old(self).q_controller@.defined_at(q_error, dt),
        ensures
            out.0 == old(self).d_controller@.output(d_error, dt),
            out.1 == old(self).q_controller@.output(q_error, dt),
            final(self).d_controller@ == (PiModel {
                integral: old(self).d_controller@.next_integral(d_error, dt) as i32,
                ..old(self).d_controller@
            }),
            final(self).q_controller@ == (PiModel {
                integral: old(self).q_controller@.next_integral(q_error, dt) as i32,
                ..old(self).q_controller@
            }),
    {
        let d_out: i32 = self.d_controller.update(d_error, dt);
        let q_out: i32 = self.q_controller.update(q_error, dt);
        (d_out, q_out)
    }

    /// Empties both integral terms.
    pub fn reset(&mut self)
        ensures
            final(self).d_controller@ == (PiModel { integral: 0, ..old(self).d_controller@ }),
            final(self).q_controller@ == (PiModel { integral: 0, ..old(self).q_controller@ }),
    {
        self.d_controller.reset();
        self.q_controller.reset();
    }
}

/// Anti-windup: with a limit that is not negative, neither the integral term
/// nor the output exceeds it either way.
pub proof fn lemma_pi_within_limit(m: PiModel, error: i32, dt: i32)
    requires
        m.config.limit >= 0,
    ensures
        -m.config.limit <= m.next_integral(error, dt) <= m.config.limit,
        -m.config.limit <= m.output(error, dt) <= m.config.limit,
{
}

} // verus!
