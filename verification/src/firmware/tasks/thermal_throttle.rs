//! Reading of the thermal throttle factor that the control loops share.
//!
//! The factor is stored in ten-thousandths: 10000 is full power, 0 is an
//! emergency shutdown.

use vstd::prelude::*;

verus! {

/// The stored factor at full power.
pub const FULL_POWER: u16 = 10_000;

/// Whether a stored factor of `stored` throttles the motor at all.
pub fn is_throttling_active(stored: u16) -> (active: bool)
    ensures
        active == (stored < FULL_POWER),
{
    stored < FULL_POWER
}

/// Whether a stored factor of `stored` is an emergency shutdown.
pub fn is_emergency_shutdown(stored: u16) -> (shutdown: bool)
    ensures
        shutdown == (stored == 0),
        shutdown ==> stored < FULL_POWER,
{
    stored == 0
}

} // verus!
