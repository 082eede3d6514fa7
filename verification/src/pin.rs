//! Plain-value descriptions of GPIO lines.
//!
//! The library never touches hardware. Every driver in it tracks the level of
//! the lines it owns and hands back, as a list of [`PinWrite`]s, the writes
//! that have to be performed on the pins, in order. A thin hardware layer
//! replays those writes; a simulation can consume them just as well.

use vstd::prelude::*;

verus! {

/// Logic level of a line.
#[derive(Clone, Copy, Debug, PartialEq, Eq, Structural)]
pub enum Level {
    Low,
    High,
}

impl Level {
    /// The level as a boolean: `true` for high.
    pub open spec fn as_bool(self) -> bool {
        self == Level::High
    }

    /// Whether the level is high.
    pub fn is_high(self) -> (b: bool)
        ensures
            b == self.as_bool(),
    {
        match self {
            Level::High => true,
            Level::Low => false,
        }
    }

    /// The level that stands for a boolean: high for `true`.
    pub fn from_bool(b: bool) -> (l: Level)
        ensures
            l.as_bool() == b,
            l == (if b { Level::High } else { Level::Low }),
    {
        if b {
            Level::High
        } else {
            Level::Low
        }
    }
}

/// How an output stage drives its line.
#[derive(Clone, Copy, Debug, PartialEq, Eq, Structural)]
pub enum DriveMode {
    PushPull,
    OpenDrain,
}

/// Internal pull resistor of a pin.
#[derive(Clone, Copy, Debug, PartialEq, Eq, Structural)]
pub enum Pull {
    Floating,
    Up,
    Down,
}

/// Electrical configuration of an output pin.
#[derive(Clone, Copy, Debug, PartialEq, Eq, Structural)]
pub struct OutputCfg {
    pub drive_mode: DriveMode,
    pub pull: Pull,
}

/// Electrical configuration of an input pin.
#[derive(Clone, Copy, Debug, PartialEq, Eq, Structural)]
pub struct InputCfg {
    pub pull: Pull,
}

/// One write to a GPIO line: drive `pin` to `level` (`true` is high).
#[derive(Clone, Copy, Debug, PartialEq, Eq, Structural)]
pub struct PinWrite {
    pub pin: u8,
    pub level: bool,
}

/// The two writes of a pulse on `pin`: first to `first`, then back.
pub open spec fn pulse_wave(pin: u8, first: bool) -> Seq<PinWrite> {
    seq![PinWrite { pin, level: first }, PinWrite { pin, level: !first }]
}

/// Push-pull output without pull resistor.
pub fn default_output_cfg() -> (cfg: OutputCfg)
    ensures
        cfg == (OutputCfg { drive_mode: DriveMode::PushPull, pull: Pull::Floating }),
{
    OutputCfg { drive_mode: DriveMode::PushPull, pull: Pull::Floating }
}

/// Input without pull resistor.
pub fn default_input_cfg() -> (cfg: InputCfg)
    ensures
        cfg == (InputCfg { pull: Pull::Floating }),
{
    InputCfg { pull: Pull::Floating }
}

} // verus!
