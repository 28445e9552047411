//! Digital GPIO pin configuration value types.
//!
//! Plain enumerations describing pin polarity, drive mode, bias, IO mode and
//! event triggers.  Hardware access itself lives outside the library; these
//! types only carry configuration values.

use vstd::prelude::*;

verus! {

/// Digital GPIO pin polarity.
///
/// Conversion from `bool` and logical negation are also provided.
#[derive(Debug, PartialEq, Eq, Clone, Copy, Structural)]
pub enum Polarity {
    /// Normal polarity (On is high voltage level, Off is low/zero volts).
    Normal,
    /// Inverted polarity (On is low/zero volts, Off is high voltage level).
    Inverted,
}

impl Polarity {
    /// The opposite polarity.
    pub fn not(self) -> (r: Self)
        ensures
            r == (match self {
                Polarity::Normal => Polarity::Inverted,
                Polarity::Inverted => Polarity::Normal,
            }),
    {
        match self {
            Polarity::Normal => Polarity::Inverted,
            Polarity::Inverted => Polarity::Normal,
        }
    }

    /// The boolean equivalent: `Normal` is `true`, `Inverted` is `false`.
    pub fn as_bool(self) -> (r: bool)
        ensures
            r == (self is Normal),
    {
        match self {
            Polarity::Normal => true,
            Polarity::Inverted => false,
        }
    }
}

impl From<bool> for Polarity {
    /// `true` selects `Normal`, `false` selects `Inverted`.
    fn from(value: bool) -> (r: Self) {
        match value {
            false => Polarity::Inverted,
            true => Polarity::Normal,
        }
    }
}

impl vstd::std_specs::convert::FromSpecImpl<bool> for Polarity {
    open spec fn obeys_from_spec() -> bool {
        true
    }

    open spec fn from_spec(value: bool) -> Self {
        if value {
            Polarity::Normal
        } else {
            Polarity::Inverted
        }
    }
}

/// GPIO output drive mode.
#[derive(Debug, Clone, Copy)]
#[non_exhaustive]
pub enum DriveMode {
    /// Push-pull output mode: drives the pin to the high or low level.
    PushPull,
    /// Open drain/open collector: high impedance when not driven, sinks
    /// current when driven; effectively inverted.
    OpenDrain,
    /// Open source/open emitter: high impedance when not driven, sources
    /// current when driven; non-inverted.
    OpenSource,
}

/// GPIO pin bias: the internal bias resistor configuration.
#[derive(Debug, PartialEq, Eq, Clone, Copy, Structural)]
#[non_exhaustive]
pub enum Bias {
    /// Internal pull-up resistor to the positive voltage rail enabled.
    PullUp,
    /// Internal pull-down resistor to the zero voltage/ground rail enabled.
    PullDown,
    /// Input allowed to float.
    Floating,
}

/// GPIO pin IO mode.
#[derive(Debug, PartialEq, Eq, Clone, Copy, Structural)]
#[non_exhaustive]
pub enum PinMode {
    /// Input-only mode.
    Input,
    /// Output-only mode.
    Output,
    /// Bi-directional mode.
    IO,
    /// Supports interrupts/events.
    Events,
}

/// GPIO pin event triggers.
#[derive(Debug, PartialEq, Eq, Clone, Copy, Structural)]
#[non_exhaustive]
pub enum PinEvent {
    /// High logic level.
    High,
    /// Low logic level.
    Low,
    /// Rising edge.
    RisingEdge,
    /// Falling edge.
    FallingEdge,
    /// Any edge.
    AnyEdge,
}

} // verus!
