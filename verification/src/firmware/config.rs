//! Static configuration of the joint.

use vstd::prelude::*;

verus! {

/// System clock in Hz.
pub const SYSCLK_HZ: u32 = 170_000_000;

/// Period of the heartbeat in seconds.
pub const HEARTBEAT_PERIOD_SECS: u64 = 1;

/// How the motor is driven.
#[derive(Clone, Copy, Debug, PartialEq, Eq, Structural)]
pub enum ControlMethod {
    /// Field-oriented control.
    Foc,
    /// Classic step/direction control.
    StepDir,
}

impl Default for ControlMethod {
    fn default() -> (m: Self)
        ensures
            m == ControlMethod::Foc,
    {
        ControlMethod::Foc
    }
}

/// Motor configuration.
#[derive(Clone, Copy, Debug, PartialEq, Eq, Structural)]
pub struct MotorConfig {
    pub pole_pairs: u8,
    pub control_method: ControlMethod,
    /// Microsteps per full step in step/direction mode: a power of two from 1
    /// to 256.
    pub microsteps: u16,
}

impl MotorConfig {
    /// The configuration of the stock motor.
    pub open spec fn stock() -> MotorConfig {
        MotorConfig { pole_pairs: 7, control_method: ControlMethod::Foc, microsteps: 16 }
    }

    /// The configuration of the stock motor: 7 pole pairs, field-oriented
    /// control, 16 microsteps.
    pub fn default() -> (c: Self)
        ensures
            c == MotorConfig::stock(),
    {
        MotorConfig { pole_pairs: 7, control_method: ControlMethod::Foc, microsteps: 16 }
    }
}

impl Default for MotorConfig {
    fn default() -> (c: Self)
        ensures
            c == MotorConfig::stock(),
    {
        MotorConfig { pole_pairs: 7, control_method: ControlMethod::Foc, microsteps: 16 }
    }
}

/// Encoder configuration.
#[derive(Clone, Copy, Debug, PartialEq, Eq, Structural)]
pub struct EncoderConfig {
    pub resolution_bits: u8,
}

impl EncoderConfig {
    /// The TLE5012B angle sensor: 15 bits per revolution.
    pub fn tle5012b() -> (c: Self)
        ensures
            c.resolution_bits == 15,
    {
        EncoderConfig { resolution_bits: 15 }
    }
}

} // verus!
