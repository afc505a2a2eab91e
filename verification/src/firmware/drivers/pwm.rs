//! PWM duties of the two H-bridges of the motor driver.
//!
//! A phase current is given in ten-thousandths of the full current, from
//! -10000 to 10000; a duty in timer counts, from 0 to the largest duty.

use vstd::prelude::*;
use crate::firmware::units::magnitude;

verus! {

/// PWM frequency of the motor driver in Hz: 20 kHz.
pub const DEFAULT_PWM_FREQ: u32 = 20_000;

/// The full phase current.
pub const FULL_PHASE: i32 = 10_000;

/// The duty that a phase current of `phase` asks for at a largest duty of
/// `max_duty`: that part of the largest duty which the magnitude of the
/// current, limited to the full current, is of the full current; rounded
/// down.
pub open spec fn duty_for(phase: i32, max_duty: u16) -> int {
    let size = if magnitude(phase as int) > FULL_PHASE {
        FULL_PHASE as int
    } else {
        magnitude(phase as int)
    };
    (size * max_duty) / (FULL_PHASE as int)
}

/// The duties of the two inputs of one H-bridge for a phase current of
/// `phase`: a current forward drives the first input, a current in reverse
/// the second; the other input rests.
pub fn bridge_duties(phase: i32, max_duty: u16) -> (duties: (u16, u16))
    ensures
        phase >= 0 ==> duties.0 == duty_for(phase, max_duty) && duties.1 == 0,
        phase < 0 ==> duties.0 == 0 && duties.1 == duty_for(phase, max_duty),
        duties.0 <= max_duty,
        duties.1 <= max_duty,
{
    let wide: i64 = if phase < 0 {
        -(phase as i64)
    } else {
        phase as i64
    };
    let size: i64 = if wide > FULL_PHASE as i64 {
        FULL_PHASE as i64
    } else {
        wide
    };
    assert(0 <= size * max_duty <= 10_000 * max_duty) by (nonlinear_arith)
        requires
            0 <= size <= 10_000,
            0 <= max_duty,
    ;
    let duty: u16 = ((size * max_duty as i64) / 10_000) as u16;
    if phase >= 0 {
        (duty, 0)
    } else {
        (0, duty)
    }
}

/// Whether `duty` can be set at a largest duty of `max_duty`.
pub fn duty_in_range(duty: u16, max_duty: u16) -> (ok: bool)
    ensures
        ok == (duty <= max_duty),
{
    duty <= max_duty
}

} // verus!
