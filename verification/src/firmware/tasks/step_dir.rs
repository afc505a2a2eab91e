//! Classic step/direction control: every step pulse moves the position by
//! one microstep in the selected direction.

use vstd::prelude::*;
use crate::firmware::config::MotorConfig;

verus! {

/// Frequency of the step/direction loop in Hz.
pub const STEP_DIR_LOOP_FREQ_HZ: u32 = 1_000;

/// Period of the step/direction loop in microseconds.
pub const STEP_DIR_LOOP_PERIOD_US: u64 = 1_000;

/// Largest step frequency in steps per second.
pub const MAX_STEP_FREQ_HZ: u32 = 50_000;

/// Full steps per revolution of a standard stepper (1.8° per step).
pub const FULL_STEPS_PER_REV: u32 = 200;

/// State of the step/direction controller.
#[derive(Clone, Copy, Debug, PartialEq, Eq, Structural)]
pub enum StepDirState {
    Idle,
    Running,
    Fault,
}

/// Whether `microsteps` is a power of two from 1 to 256.
pub open spec fn valid_microsteps(microsteps: u16) -> bool {
    microsteps == 1 || microsteps == 2 || microsteps == 4 || microsteps == 8 || microsteps == 16
        || microsteps == 32 || microsteps == 64 || microsteps == 128 || microsteps == 256
}

/// Microstepping table: the resolution at which a full step is divided.
#[derive(Clone, Copy, Debug)]
pub struct MicrostepTable {
    microsteps: u16,
}

impl MicrostepTable {
    /// Microsteps per full step.
    pub closed spec fn resolution(&self) -> u16 {
        self.microsteps
    }

    /// Whether a table can be made for `microsteps`.
    pub fn accepts(microsteps: u16) -> (ok: bool)
        ensures
            ok == valid_microsteps(microsteps),
    {
        microsteps == 1 || microsteps == 2 || microsteps == 4 || microsteps == 8 || microsteps
            == 16 || microsteps == 32 || microsteps == 64 || microsteps == 128 || microsteps
            == 256
    }

    /// A table for `microsteps` microsteps per full step.
    pub fn new(microsteps: u16) -> (t: Self)
        requires
            valid_microsteps(microsteps),
        ensures
            t.resolution() == microsteps,
    {
        MicrostepTable { microsteps }
    }

    /// Microsteps per full step.
    pub fn microsteps(&self) -> (m: u16)
        ensures
            m == self.resolution(),
    {
        self.microsteps
    }
}

/// What a step/direction controller holds.
pub struct StepDirModel {
    pub state: StepDirState,
    /// Position in microsteps, wrapping at the width of the counter.
    pub microstep: u32,
    /// Direction of the next step.
    pub forward: bool,
    /// Microsteps per revolution.
    pub steps_per_rev: u32,
}

impl StepDirModel {
    /// The controller after one step pulse: a running controller moves by one
    /// microstep in its direction, wrapping around; any other ignores the pulse.
    pub open spec fn stepped(self) -> StepDirModel {
        if !(self.state is Running) {
            self
        } else if self.forward {
            StepDirModel {
                microstep: if self.microstep == u32::MAX {
                    0u32
                } else {
                    (self.microstep + 1) as u32
                },
                ..self
            }
        } else {
            StepDirModel {
                microstep: if self.microstep == 0 {
                    u32::MAX
                } else {
                    (self.microstep - 1) as u32
                },
                ..self
            }
        }
    }

    /// The position as a signed number of steps: the counter read in two's
    /// complement.
    pub open spec fn signed_position(self) -> int {
        if self.microstep <= i32::MAX {
            self.microstep as int
        } else {
            self.microstep - 0x1_0000_0000
        }
    }
}

/// Step/direction controller.
pub struct StepDirController {
    state: StepDirState,
    current_microstep: u32,
    direction: bool,
    table: MicrostepTable,
    steps_per_rev: u32,
}

impl View for StepDirController {
    type V = StepDirModel;

    closed spec fn view(&self) -> StepDirModel {
        StepDirModel {
            state: self.state,
            microstep: self.current_microstep,
            forward: self.direction,
            steps_per_rev: self.steps_per_rev,
        }
    }
}

impl StepDirController {
    /// An idle controller at position 0 that steps forward.
    pub fn new(motor_config: &MotorConfig) -> (c: Self)
        requires
            valid_microsteps(motor_config.microsteps),
        ensures
            c@ == (StepDirModel {
                state: StepDirState::Idle,
                microstep: 0,
                forward: true,
                steps_per_rev: (FULL_STEPS_PER_REV * motor_config.microsteps) as u32,
            }),
    {
        let steps_per_rev: u32 = FULL_STEPS_PER_REV * motor_config.microsteps as u32;
        StepDirController {
            state: StepDirState::Idle,
            current_microstep: 0,
            direction: true,
            table: MicrostepTable::new(motor_config.microsteps),
            steps_per_rev,
        }
    }

    /// Lets the controller follow step pulses.
    pub fn enable(&mut self)
        ensures
            final(self)@ == (StepDirModel { state: StepDirState::Running, ..old(self)@ }),
    {
        self.state = StepDirState::Running;
    }

    /// Makes the controller ignore step pulses.
    pub fn disable(&mut self)
        ensures
            final(self)@ == (StepDirModel { state: StepDirState::Idle, ..old(self)@ }),
    {
        self.state = StepDirState::Idle;
    }

    /// Selects the direction of the steps to come.
    pub fn set_direction(&mut self, forward: bool)
        ensures
            final(self)@ == (StepDirModel { forward, ..old(self)@ }),
    {
        self.direction = forward;
    }

    /// Handles one step pulse.
    pub fn step(&mut self)
        ensures
            final(self)@ == old(self)@.stepped(),
    {
        match self.state {
            StepDirState::Running => {},
            _ => {
                return ;
            },
        }
        if self.direction {
            self.current_microstep = if self.current_microstep == u32::MAX {
                0
            } else {
                self.current_microstep + 1
            };
        } else {
            self.current_microstep = if self.current_microstep == 0 {
                u32::MAX
            } else {
                self.current_microstep - 1
            };
        }
    }

    /// The position in steps.
    pub fn position_steps(&self) -> (p: i32)
        ensures
            p == self@.signed_position(),
    {
        if self.current_microstep <= 0x7fff_ffff {
            self.current_microstep as i32
        } else {
            let low: u32 = self.current_microstep - 0x8000_0000;
            low as i32 - 0x7fff_ffff - 1
        }
    }

    /// Microsteps per revolution.
    pub fn steps_per_rev(&self) -> (n: u32)
        ensures
            n == self@.steps_per_rev,
    {
        self.steps_per_rev
    }

    /// The state of the controller.
    pub fn state(&self) -> (s: StepDirState)
        ensures
            s == self@.state,
    {
        self.state
    }
}

/// A step forward and a step back cancel out.
pub proof fn lemma_step_back_and_forth(m: StepDirModel)
    requires
        m.state is Running,
    ensures
        (StepDirModel { forward: !m.forward, ..m.stepped() }).stepped().microstep == m.microstep,
{
}

} // verus!
