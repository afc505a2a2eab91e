//! Operating modes of the CAN transceiver and the pin levels that select
//! them.

use vstd::prelude::*;

verus! {

/// Operating mode of the transceiver.
#[derive(Clone, Copy, Debug, PartialEq, Eq, Structural)]
pub enum CanMode {
    /// Powered off.
    Shutdown,
    /// High-speed operation.
    Normal,
    /// Listen only, at low power.
    Standby,
}

impl CanMode {
    /// Level of the shutdown pin in this mode: high powers the transceiver.
    pub fn shutdown_pin_high(self) -> (high: bool)
        ensures
            high == !(self is Shutdown),
    {
        match self {
            CanMode::Shutdown => false,
            _ => true,
        }
    }

    /// Level to drive the standby pin to on entering this mode, if the mode
    /// drives it at all: low selects high speed, high selects standby. A
    /// shutdown leaves the pin as it is.
    pub fn standby_pin_high(self) -> (level: Option<bool>)
        ensures
            level == match self {
                CanMode::Shutdown => None::<bool>,
                CanMode::Normal => Some(false),
                CanMode::Standby => Some(true),
            },
    {
        match self {
            CanMode::Shutdown => None,
            CanMode::Normal => Some(false),
            CanMode::Standby => Some(true),
        }
    }
}

} // verus!
