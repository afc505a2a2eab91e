//! Verified core of a motor-joint controller.
//!
//! The heart of the crate is the calibration subsystem, which identifies the
//! inertia and the friction of the motor under a safety gate. Around it stand
//! the plain rules of the firmware: sensor conversions, power protection,
//! control loops, telemetry timing, CAN frames, flash bank checks and error
//! classes.
//!
//! Nothing here touches hardware or a clock: every function takes the values
//! that were read and returns what is to be done. Quantities are integers in
//! fixed units, named in each module, so that each rule has an exact
//! statement over the integers.

pub mod firmware;
