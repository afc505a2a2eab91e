//! Colors of the status LED and what each system status shows.

use vstd::prelude::*;

verus! {

/// Colors that the RGB status LED can show.
#[derive(Clone, Copy, Debug, PartialEq, Eq, Structural)]
pub enum LedColor {
    Off,
    Red,
    Green,
    Blue,
    Yellow,
    Cyan,
    Magenta,
    White,
}

/// System status as the LED indicates it.
#[derive(Clone, Copy, Debug, PartialEq, Eq, Structural)]
pub enum SystemStatus {
    Idle,
    Running,
    Warning,
    Error,
    Fault,
}

impl LedColor {
    /// Whether the color has a red part.
    pub open spec fn has_red(self) -> bool {
        self is Red || self is Yellow || self is Magenta || self is White
    }

    /// Whether the color has a green part.
    pub open spec fn has_green(self) -> bool {
        self is Green || self is Yellow || self is Cyan || self is White
    }

    /// Whether the color has a blue part.
    pub open spec fn has_blue(self) -> bool {
        self is Blue || self is Cyan || self is Magenta || self is White
    }

    /// Which of the red, green and blue LEDs are lit for this color.
    pub fn rgb(self) -> (lit: (bool, bool, bool))
        ensures
            lit == (self.has_red(), self.has_green(), self.has_blue()),
    {
        match self {
            LedColor::Off => (false, false, false),
            LedColor::Red => (true, false, false),
            LedColor::Green => (false, true, false),
            LedColor::Blue => (false, false, true),
            LedColor::Yellow => (true, true, false),
            LedColor::Cyan => (false, true, true),
            LedColor::Magenta => (true, false, true),
            LedColor::White => (true, true, true),
        }
    }
}

impl SystemStatus {
    /// The color that indicates this status: blue when idle, green when
    /// running, yellow on a warning, red on an error or a fault.
    pub fn color(self) -> (c: LedColor)
        ensures
            c == match self {
                SystemStatus::Idle => LedColor::Blue,
                SystemStatus::Running => LedColor::Green,
                SystemStatus::Warning => LedColor::Yellow,
                SystemStatus::Error => LedColor::Red,
                SystemStatus::Fault => LedColor::Red,
            },
    {
        match self {
            SystemStatus::Idle => LedColor::Blue,
            SystemStatus::Running => LedColor::Green,
            SystemStatus::Warning => LedColor::Yellow,
            SystemStatus::Error => LedColor::Red,
            SystemStatus::Fault => LedColor::Red,
        }
    }
}

} // verus!
