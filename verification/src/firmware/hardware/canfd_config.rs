//! CAN-FD configuration handed to the transport.

use vstd::prelude::*;

verus! {

/// Nominal bitrate of the bus: 1 Mbit/s.
pub const NOMINAL_BITRATE: u32 = 1_000_000;

/// Bitrate of the data phase: 5 Mbit/s.
pub const DATA_BITRATE: u32 = 5_000_000;

/// A pin of the controller.
#[derive(Clone, Copy, Debug, PartialEq, Eq, Structural)]
pub enum PinId {
    PA11,
    PA12,
}

/// The two pins of the CAN-FD peripheral.
#[derive(Clone, Copy, Debug, PartialEq, Eq, Structural)]
pub struct CanFdPinConfig {
    pub tx: PinId,
    pub rx: PinId,
}

impl Default for CanFdPinConfig {
    fn default() -> (p: Self)
        ensures
            p == (CanFdPinConfig { tx: PinId::PA12, rx: PinId::PA11 }),
    {
        CanFdPinConfig { tx: PinId::PA12, rx: PinId::PA11 }
    }
}

/// Bitrates of the arbitration phase and of the data phase, in Hz.
#[derive(Clone, Copy, Debug, PartialEq, Eq, Structural)]
pub struct CanFdBitrates {
    pub nominal: u32,
    pub data: u32,
}

impl CanFdBitrates {
    /// The bitrates of the joint bus.
    pub open spec fn bus() -> CanFdBitrates {
        CanFdBitrates { nominal: NOMINAL_BITRATE, data: DATA_BITRATE }
    }
}

impl Default for CanFdBitrates {
    fn default() -> (b: Self)
        ensures
            b == CanFdBitrates::bus(),
    {
        CanFdBitrates { nominal: NOMINAL_BITRATE, data: DATA_BITRATE }
    }
}

/// Complete CAN-FD configuration.
#[derive(Clone, Copy, Debug, PartialEq, Eq, Structural)]
pub struct CanFdConfig {
    /// Address of the device on the bus.
    pub node_id: u16,
    pub bitrates: CanFdBitrates,
    /// Loop frames back without a physical bus.
    pub loopback: bool,
    /// Listen only, without acknowledging.
    pub silent: bool,
}

impl CanFdConfig {
    /// The configuration of joint `node_id` on the bus.
    pub fn for_joint(node_id: u16) -> (c: Self)
        ensures
            c == (CanFdConfig {
                node_id,
                bitrates: CanFdBitrates::bus(),
                loopback: false,
                silent: false,
            }),
    {
        CanFdConfig {
            node_id,
            bitrates: CanFdBitrates { nominal: NOMINAL_BITRATE, data: DATA_BITRATE },
            loopback: false,
            silent: false,
        }
    }

    /// The configuration of joint `node_id` for tests: as on the bus, but
    /// looped back.
    pub fn for_testing(node_id: u16) -> (c: Self)
        ensures
            c == (CanFdConfig {
                node_id,
                bitrates: CanFdBitrates::bus(),
                loopback: true,
                silent: false,
            }),
    {
        CanFdConfig {
            node_id,
            bitrates: CanFdBitrates { nominal: NOMINAL_BITRATE, data: DATA_BITRATE },
            loopback: true,
            silent: false,
        }
    }
}

} // verus!
