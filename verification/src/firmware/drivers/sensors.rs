//! The TLE5012B angle sensor: the read command, the angle in its answer, and
//! the electrical angle that a raw angle stands for.

use vstd::prelude::*;

verus! {

/// Address of the angle value register.
pub const REG_ANGLE_VALUE: u16 = 0x0002;

/// Bits of one raw angle.
pub const ANGLE_RESOLUTION_BITS: u8 = 15;

/// Largest raw angle.
pub const ANGLE_MAX: u16 = 0x7FFF;

/// Raw counts per mechanical revolution.
pub const COUNTS_PER_REV: u32 = 0x8000;

/// Millidegrees of one revolution.
pub const MDEG_PER_REV: u32 = 360_000;

/// The mechanical angle of `raw` counts in millidegrees, rounded down.
pub open spec fn mechanical_mdeg(raw: u16) -> int {
    (raw * MDEG_PER_REV) / (COUNTS_PER_REV as int)
}

/// The electrical angle of `raw` counts on a motor of `pole_pairs` pole
/// pairs: the mechanical angle taken `pole_pairs` times, within one
/// revolution.
pub open spec fn electrical_mdeg(raw: u16, pole_pairs: u8) -> int {
    (mechanical_mdeg(raw) * pole_pairs) % (MDEG_PER_REV as int)
}

/// Conversions of what the angle sensor transfers.
pub struct AngleSensor;

impl AngleSensor {
    /// The four bytes to send for reading the angle: the register address
    /// with the read flag, high byte first, then two bytes during which the
    /// sensor answers.
    pub fn angle_command() -> (tx: [u8; 4])
        ensures
            tx@ == seq![0x00u8, 0x02u8, 0x00u8, 0x00u8],
    {
        let tx: [u8; 4] = [0x00, 0x02, 0x00, 0x00];
        assert(tx@ =~= seq![0x00u8, 0x02u8, 0x00u8, 0x00u8]);
        tx
    }

    /// The raw angle in the four bytes received: the low 15 bits of the last
    /// two bytes, high byte first.
    pub fn decode_angle(rx: &[u8; 4]) -> (angle: u16)
        ensures
            angle == (rx@[2] % 128) * 256 + rx@[3],
            angle <= ANGLE_MAX,
    {
        let high: u16 = (rx[2] % 128) as u16;
        high * 256 + rx[3] as u16
    }

    /// The electrical angle in millidegrees that `raw` stands for.
    pub fn raw_to_electrical_angle_mdeg(raw: u16, pole_pairs: u8) -> (angle: u32)
        ensures
            angle == electrical_mdeg(raw, pole_pairs),
            angle < MDEG_PER_REV,
    {
        let mech_angle_mdeg: u64 = (raw as u64 * 360_000) / 0x8000;
        assert(mech_angle_mdeg * pole_pairs <= 720_000 * 255) by (nonlinear_arith)
            requires
                0 <= mech_angle_mdeg <= 720_000,
                0 <= pole_pairs <= 255,
        ;
        ((mech_angle_mdeg * pole_pairs as u64) % 360_000) as u32
    }
}

} // verus!
