//! Polarity of the step/direction input signals.

use vstd::prelude::*;

verus! {

/// Which of the three input signals are inverted.
#[derive(Clone, Copy, Debug, PartialEq, Eq, Structural)]
pub struct StepDirConfig {
    /// Step on the falling edge.
    pub invert_step: bool,
    /// High means reverse.
    pub invert_dir: bool,
    /// Low means enabled.
    pub invert_enable: bool,
}

impl Default for StepDirConfig {
    fn default() -> (c: Self)
        ensures
            !c.invert_step,
            !c.invert_dir,
            !c.invert_enable,
    {
        StepDirConfig { invert_step: false, invert_dir: false, invert_enable: false }
    }
}

} // verus!
