//! Header pin numbering for the supported boards.
//!
//! [`BCMHeader`] names the header pins by their Broadcom GPIO numbers and
//! [`PiHeader`] by their physical positions on the 40-pin header; each pin
//! carries a unique numeric identifier and its silkscreen-style name.

use vstd::prelude::*;

verus! {

/// Broadcom GPIO numbers for the header pins.
#[derive(Debug, Clone, Copy)]
pub enum BCMHeader {
    /// The `GP0` pin.
    GP0,
    /// The `GP1` pin.
    GP1,
    /// The `GP2` pin.
    GP2,
    /// The `GP3` pin.
    GP3,
    /// The `GP4` pin.
    GP4,
    /// The `GP5` pin.
    GP5,
    /// The `GP6` pin.
    GP6,
    /// The `GP7` pin.
    GP7,
    /// The `GP8` pin.
    GP8,
    /// The `GP9` pin.
    GP9,
    /// The `GP10` pin.
    GP10,
    /// The `GP11` pin.
    GP11,
    /// The `GP12` pin.
    GP12,
    /// The `GP13` pin.
    GP13,
    /// The `GP14` pin.
    GP14,
    /// The `GP15` pin.
    GP15,
    /// The `GP16` pin.
    GP16,
    /// The `GP17` pin.
    GP17,
    /// The `GP18` pin.
    GP18,
    /// The `GP19` pin.
    GP19,
    /// The `GP20` pin.
    GP20,
    /// The `GP21` pin.
    GP21,
    /// The `GP22` pin.
    GP22,
    /// The `GP23` pin.
    GP23,
    /// The `GP24` pin.
    GP24,
    /// The `GP25` pin.
    GP25,
    /// The `GP26` pin.
    GP26,
    /// The `GP27` pin.
    GP27,
}

impl BCMHeader {
    /// The numeric identifier of this pin.
    pub open spec fn spec_id(self) -> u16 {
        match self {
            BCMHeader::GP0 => 0,
            BCMHeader::GP1 => 1,
            BCMHeader::GP2 => 2,
            BCMHeader::GP3 => 3,
            BCMHeader::GP4 => 4,
            BCMHeader::GP5 => 5,
            BCMHeader::GP6 => 6,
            BCMHeader::GP7 => 7,
            BCMHeader::GP8 => 8,
            BCMHeader::GP9 => 9,
            BCMHeader::GP10 => 10,
            BCMHeader::GP11 => 11,
            BCMHeader::GP12 => 12,
            BCMHeader::GP13 => 13,
            BCMHeader::GP14 => 14,
            BCMHeader::GP15 => 15,
            BCMHeader::GP16 => 16,
            BCMHeader::GP17 => 17,
            BCMHeader::GP18 => 18,
            BCMHeader::GP19 => 19,
            BCMHeader::GP20 => 20,
            BCMHeader::GP21 => 21,
            BCMHeader::GP22 => 22,
            BCMHeader::GP23 => 23,
            BCMHeader::GP24 => 24,
            BCMHeader::GP25 => 25,
            BCMHeader::GP26 => 26,
            BCMHeader::GP27 => 27,
        }
    }

    /// The human-readable name of this pin.
    pub open spec fn spec_name(self) -> Seq<char> {
        match self {
            BCMHeader::GP0 => "GP0"@,
            BCMHeader::GP1 => "GP1"@,
            BCMHeader::GP2 => "GP2"@,
            BCMHeader::GP3 => "GP3"@,
            BCMHeader::GP4 => "GP4"@,
            BCMHeader::GP5 => "GP5"@,
            BCMHeader::GP6 => "GP6"@,
            BCMHeader::GP7 => "GP7"@,
            BCMHeader::GP8 => "GP8"@,
            BCMHeader::GP9 => "GP9"@,
            BCMHeader::GP10 => "GP10"@,
            BCMHeader::GP11 => "GP11"@,
            BCMHeader::GP12 => "GP12"@,
            BCMHeader::GP13 => "GP13"@,
            BCMHeader::GP14 => "GP14"@,
            BCMHeader::GP15 => "GP15"@,
            BCMHeader::GP16 => "GP16"@,
            BCMHeader::GP17 => "GP17"@,
            BCMHeader::GP18 => "GP18"@,
            BCMHeader::GP19 => "GP19"@,
            BCMHeader::GP20 => "GP20"@,
            BCMHeader::GP21 => "GP21"@,
            BCMHeader::GP22 => "GP22"@,
            BCMHeader::GP23 => "GP23"@,
            BCMHeader::GP24 => "GP24"@,
            BCMHeader::GP25 => "GP25"@,
            BCMHeader::GP26 => "GP26"@,
            BCMHeader::GP27 => "GP27"@,
        }
    }

    /// Returns the unique numeric identifier of the pin.
    pub fn id(&self) -> (r: u16)
        ensures
            r == self.spec_id(),
    {
        match self {
            BCMHeader::GP0 => 0,
            BCMHeader::GP1 => 1,
            BCMHeader::GP2 => 2,
            BCMHeader::GP3 => 3,
            BCMHeader::GP4 => 4,
            BCMHeader::GP5 => 5,
            BCMHeader::GP6 => 6,
            BCMHeader::GP7 => 7,
            BCMHeader::GP8 => 8,
            BCMHeader::GP9 => 9,
            BCMHeader::GP10 => 10,
            BCMHeader::GP11 => 11,
            BCMHeader::GP12 => 12,
            BCMHeader::GP13 => 13,
            BCMHeader::GP14 => 14,
            BCMHeader::GP15 => 15,
            BCMHeader::GP16 => 16,
            BCMHeader::GP17 => 17,
            BCMHeader::GP18 => 18,
            BCMHeader::GP19 => 19,
            BCMHeader::GP20 => 20,
            BCMHeader::GP21 => 21,
            BCMHeader::GP22 => 22,
            BCMHeader::GP23 => 23,
            BCMHeader::GP24 => 24,
            BCMHeader::GP25 => 25,
            BCMHeader::GP26 => 26,
            BCMHeader::GP27 => 27,
        }
    }

    /// Returns the standard human-readable name of the pin.
    pub fn name(&self) -> (r: &'static str)
        ensures
            r@ == self.spec_name(),
    {
        match self {
            BCMHeader::GP0 => "GP0",
            BCMHeader::GP1 => "GP1",
            BCMHeader::GP2 => "GP2",
            BCMHeader::GP3 => "GP3",
            BCMHeader::GP4 => "GP4",
            BCMHeader::GP5 => "GP5",
            BCMHeader::GP6 => "GP6",
            BCMHeader::GP7 => "GP7",
            BCMHeader::GP8 => "GP8",
            BCMHeader::GP9 => "GP9",
            BCMHeader::GP10 => "GP10",
            BCMHeader::GP11 => "GP11",
            BCMHeader::GP12 => "GP12",
            BCMHeader::GP13 => "GP13",
            BCMHeader::GP14 => "GP14",
            BCMHeader::GP15 => "GP15",
            BCMHeader::GP16 => "GP16",
            BCMHeader::GP17 => "GP17",
            BCMHeader::GP18 => "GP18",
            BCMHeader::GP19 => "GP19",
            BCMHeader::GP20 => "GP20",
            BCMHeader::GP21 => "GP21",
            BCMHeader::GP22 => "GP22",
            BCMHeader::GP23 => "GP23",
            BCMHeader::GP24 => "GP24",
            BCMHeader::GP25 => "GP25",
            BCMHeader::GP26 => "GP26",
            BCMHeader::GP27 => "GP27",
        }
    }
}

/// 40-pin header physical pin numbers.
#[derive(Debug, Clone, Copy)]
pub enum PiHeader {
    /// The `P27` pin.
    P27,
    /// The `P28` pin.
    P28,
    /// The `P3` pin.
    P3,
    /// The `P5` pin.
    P5,
    /// The `P7` pin.
    P7,
    /// The `P29` pin.
    P29,
    /// The `P31` pin.
    P31,
    /// The `P26` pin.
    P26,
    /// The `P24` pin.
    P24,
    /// The `P21` pin.
    P21,
    /// The `P19` pin.
    P19,
    /// The `P23` pin.
    P23,
    /// The `P32` pin.
    P32,
    /// The `P33` pin.
    P33,
    /// The `P8` pin.
    P8,
    /// The `P10` pin.
    P10,
    /// The `P36` pin.
    P36,
    /// The `P11` pin.
    P11,
    /// The `P12` pin.
    P12,
    /// The `P35` pin.
    P35,
    /// The `P38` pin.
    P38,
    /// The `P40` pin.
    P40,
    /// The `P15` pin.
    P15,
    /// The `P16` pin.
    P16,
    /// The `P18` pin.
    P18,
    /// The `P22` pin.
    P22,
    /// The `P37` pin.
    P37,
    /// The `P13` pin.
    P13,
}

impl PiHeader {
    /// The numeric identifier of this pin.
    pub open spec fn spec_id(self) -> u16 {
        match self {
            PiHeader::P27 => 0,
            PiHeader::P28 => 1,
            PiHeader::P3 => 2,
            PiHeader::P5 => 3,
            PiHeader::P7 => 4,
            PiHeader::P29 => 5,
            PiHeader::P31 => 6,
            PiHeader::P26 => 7,
            PiHeader::P24 => 8,
            PiHeader::P21 => 9,
            PiHeader::P19 => 10,
            PiHeader::P23 => 11,
            PiHeader::P32 => 12,
            PiHeader::P33 => 13,
            PiHeader::P8 => 14,
            PiHeader::P10 => 15,
            PiHeader::P36 => 16,
            PiHeader::P11 => 17,
            PiHeader::P12 => 18,
            PiHeader::P35 => 19,
            PiHeader::P38 => 20,
            PiHeader::P40 => 21,
            PiHeader::P15 => 22,
            PiHeader::P16 => 23,
            PiHeader::P18 => 24,
            PiHeader::P22 => 25,
            PiHeader::P37 => 26,
            PiHeader::P13 => 27,
        }
    }

    /// The human-readable name of this pin.
    pub open spec fn spec_name(self) -> Seq<char> {
        match self {
            PiHeader::P27 => "P27"@,
            PiHeader::P28 => "P28"@,
            PiHeader::P3 => "P3"@,
            PiHeader::P5 => "P5"@,
            PiHeader::P7 => "P7"@,
            PiHeader::P29 => "P29"@,
            PiHeader::P31 => "P31"@,
            PiHeader::P26 => "P26"@,
            PiHeader::P24 => "P24"@,
            PiHeader::P21 => "P21"@,
            PiHeader::P19 => "P19"@,
            PiHeader::P23 => "P23"@,
            PiHeader::P32 => "P32"@,
            PiHeader::P33 => "P33"@,
            PiHeader::P8 => "P8"@,
            PiHeader::P10 => "P10"@,
            PiHeader::P36 => "P36"@,
            PiHeader::P11 => "P11"@,
            PiHeader::P12 => "P12"@,
            PiHeader::P35 => "P35"@,
            PiHeader::P38 => "P38"@,
            PiHeader::P40 => "P40"@,
            PiHeader::P15 => "P15"@,
            PiHeader::P16 => "P16"@,
            PiHeader::P18 => "P18"@,
            PiHeader::P22 => "P22"@,
            PiHeader::P37 => "P37"@,
            PiHeader::P13 => "P13"@,
        }
    }

    /// Returns the unique numeric identifier of the pin.
    pub fn id(&self) -> (r: u16)
        ensures
            r == self.spec_id(),
    {
        match self {
            PiHeader::P27 => 0,
            PiHeader::P28 => 1,
            PiHeader::P3 => 2,
            PiHeader::P5 => 3,
            PiHeader::P7 => 4,
            PiHeader::P29 => 5,
            PiHeader::P31 => 6,
            PiHeader::P26 => 7,
            PiHeader::P24 => 8,
            PiHeader::P21 => 9,
            PiHeader::P19 => 10,
            PiHeader::P23 => 11,
            PiHeader::P32 => 12,
            PiHeader::P33 => 13,
            PiHeader::P8 => 14,
            PiHeader::P10 => 15,
            PiHeader::P36 => 16,
            PiHeader::P11 => 17,
            PiHeader::P12 => 18,
            PiHeader::P35 => 19,
            PiHeader::P38 => 20,
            PiHeader::P40 => 21,
            PiHeader::P15 => 22,
            PiHeader::P16 => 23,
            PiHeader::P18 => 24,
            PiHeader::P22 => 25,
            PiHeader::P37 => 26,
            PiHeader::P13 => 27,
        }
    }

    /// Returns the standard human-readable name of the pin.
    pub fn name(&self) -> (r: &'static str)
        ensures
            r@ == self.spec_name(),
    {
        match self {
            PiHeader::P27 => "P27",
            PiHeader::P28 => "P28",
            PiHeader::P3 => "P3",
            PiHeader::P5 => "P5",
            PiHeader::P7 => "P7",
            PiHeader::P29 => "P29",
            PiHeader::P31 => "P31",
            PiHeader::P26 => "P26",
            PiHeader::P24 => "P24",
            PiHeader::P21 => "P21",
            PiHeader::P19 => "P19",
            PiHeader::P23 => "P23",
            PiHeader::P32 => "P32",
            PiHeader::P33 => "P33",
            PiHeader::P8 => "P8",
            PiHeader::P10 => "P10",
            PiHeader::P36 => "P36",
            PiHeader::P11 => "P11",
            PiHeader::P12 => "P12",
            PiHeader::P35 => "P35",
            PiHeader::P38 => "P38",
            PiHeader::P40 => "P40",
            PiHeader::P15 => "P15",
            PiHeader::P16 => "P16",
            PiHeader::P18 => "P18",
            PiHeader::P22 => "P22",
            PiHeader::P37 => "P37",
            PiHeader::P13 => "P13",
        }
    }
}

/// Pin function modes of the SoC pin multiplexer.
#[derive(Debug, PartialEq, Eq, Copy, Clone, Structural)]
pub enum PinMode {
    /// The `In` function.
    Input,
    /// The `Out` function.
    Output,
    /// The `Alt0` function.
    Alt0,
    /// The `Alt1` function.
    Alt1,
    /// The `Alt2` function.
    Alt2,
    /// The `Alt3` function.
    Alt3,
    /// The `Alt4` function.
    Alt4,
    /// The `Alt5` function.
    Alt5,
    /// The `Alt6` function.
    Alt6,
    /// The `Alt7` function.
    Alt7,
    /// The `Alt8` function.
    Alt8,
}

impl PinMode {
    /// The short rendering of this mode.
    pub open spec fn spec_name(self) -> Seq<char> {
        match self {
            PinMode::Input => "In"@,
            PinMode::Output => "Out"@,
            PinMode::Alt0 => "Alt0"@,
            PinMode::Alt1 => "Alt1"@,
            PinMode::Alt2 => "Alt2"@,
            PinMode::Alt3 => "Alt3"@,
            PinMode::Alt4 => "Alt4"@,
            PinMode::Alt5 => "Alt5"@,
            PinMode::Alt6 => "Alt6"@,
            PinMode::Alt7 => "Alt7"@,
            PinMode::Alt8 => "Alt8"@,
        }
    }

    /// Returns the short human-readable rendering of this mode.
    pub fn as_str(&self) -> (r: &'static str)
        ensures
            r@ == self.spec_name(),
    {
        match self {
            PinMode::Input => "In",
            PinMode::Output => "Out",
            PinMode::Alt0 => "Alt0",
            PinMode::Alt1 => "Alt1",
            PinMode::Alt2 => "Alt2",
            PinMode::Alt3 => "Alt3",
            PinMode::Alt4 => "Alt4",
            PinMode::Alt5 => "Alt5",
            PinMode::Alt6 => "Alt6",
            PinMode::Alt7 => "Alt7",
            PinMode::Alt8 => "Alt8",
        }
    }
}

} // verus!
