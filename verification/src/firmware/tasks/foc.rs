//! Timing and states of the field-oriented control loop.

use vstd::prelude::*;

verus! {

/// Frequency of the control loop in Hz.
pub const FOC_LOOP_FREQ_HZ: u32 = 10_000;

/// Period of the control loop in microseconds.
pub const FOC_LOOP_PERIOD_US: u64 = 100;

/// State of the control loop.
#[derive(Clone, Copy, Debug, PartialEq, Eq, Structural)]
pub enum FocState {
    Idle,
    Calibrating,
    Running,
    Fault,
}

/// The period is the reciprocal of the frequency.
pub proof fn lemma_period_matches_frequency()
    ensures
        FOC_LOOP_PERIOD_US * FOC_LOOP_FREQ_HZ == 1_000_000,
{
}

} // verus!
