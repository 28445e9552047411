//! Pin names and GPIO chip identity of the Pi 4 family.

use vstd::prelude::*;

verus! {

#[allow(non_camel_case_types)]
/// All pins of the GPIO chip, by their board function names.
#[derive(Debug, Clone, Copy)]
pub enum PinNames {
    /// The `ID_SDA` pin.
    ID_SDA,
    /// The `ID_SCL` pin.
    ID_SCL,
    /// The `SDA` pin.
    SDA,
    /// The `SCL` pin.
    SCL,
    /// The `GPCLK0` pin.
    GPCLK0,
    /// The `GP5` pin.
    GP5,
    /// The `GP6` pin.
    GP6,
    /// The `CE1` pin.
    CE1,
    /// The `CE0` pin.
    CE0,
    /// The `MISO` pin.
    MISO,
    /// The `MOSI` pin.
    MOSI,
    /// The `SCLK` pin.
    SCLK,
    /// The `PWM0` pin.
    PWM0,
    /// The `PWM1` pin.
    PWM1,
    /// The `TXD` pin.
    TXD,
    /// The `RXD` pin.
    RXD,
    /// The `GP16` pin.
    GP16,
    /// The `GP17` pin.
    GP17,
    /// The `PCM_CLK` pin.
    PCM_CLK,
    /// The `PCM_FS` pin.
    PCM_FS,
    /// The `PCM_DIN` pin.
    PCM_DIN,
    /// The `PCM_DOUT` pin.
    PCM_DOUT,
    /// The `GP22` pin.
    GP22,
    /// The `GP23` pin.
    GP23,
    /// The `GP24` pin.
    GP24,
    /// The `GP25` pin.
    GP25,
    /// The `GP26` pin.
    GP26,
    /// The `GP27` pin.
    GP27,
    /// The `PCIE_RP1_WAKE` pin.
    PCIE_RP1_WAKE,
    /// The `FAN_TACH` pin.
    FAN_TACH,
    /// The `HOST_SDA` pin.
    HOST_SDA,
    /// The `HOST_SCL` pin.
    HOST_SCL,
    /// The `ETH_RST_N` pin.
    ETH_RST_N,
    /// The `L33` pin.
    L33,
    /// The `CD0_IO0_MICCLK` pin.
    CD0_IO0_MICCLK,
    /// The `CD0_IO1_MICDAT0` pin.
    CD0_IO1_MICDAT0,
    /// The `RP1_PCIE_CLKREQ_N` pin.
    RP1_PCIE_CLKREQ_N,
    /// The `L37` pin.
    L37,
    /// The `CD0_SDA` pin.
    CD0_SDA,
    /// The `CD0_SCL` pin.
    CD0_SCL,
    /// The `CD1_SDA` pin.
    CD1_SDA,
    /// The `CD1_SCL` pin.
    CD1_SCL,
    /// The `USB_VBUS_EN` pin.
    USB_VBUS_EN,
    /// The `USB_OC_N` pin.
    USB_OC_N,
    /// The `RP1_STAT_LED` pin.
    RP1_STAT_LED,
    /// The `FAN_PWM` pin.
    FAN_PWM,
    /// The `CD1_IO0_MICCLK` pin.
    CD1_IO0_MICCLK,
    /// The `WAKE_2712` pin.
    WAKE_2712,
    /// The `CD1_IO1_MICDAT1` pin.
    CD1_IO1_MICDAT1,
    /// The `EN_MAX_USB_CURRENT` pin.
    EN_MAX_USB_CURRENT,
    /// The `L50` pin.
    L50,
    /// The `L51` pin.
    L51,
    /// The `L52` pin.
    L52,
    /// The `L53` pin.
    L53,
}

impl PinNames {
    /// The numeric identifier of this pin.
    pub open spec fn spec_id(self) -> u16 {
        match self {
            PinNames::ID_SDA => 0,
            PinNames::ID_SCL => 1,
            PinNames::SDA => 2,
            PinNames::SCL => 3,
            PinNames::GPCLK0 => 4,
            PinNames::GP5 => 5,
            PinNames::GP6 => 6,
            PinNames::CE1 => 7,
            PinNames::CE0 => 8,
            PinNames::MISO => 9,
            PinNames::MOSI => 10,
            PinNames::SCLK => 11,
            PinNames::PWM0 => 12,
            PinNames::PWM1 => 13,
            PinNames::TXD => 14,
            PinNames::RXD => 15,
            PinNames::GP16 => 16,
            PinNames::GP17 => 17,
            PinNames::PCM_CLK => 18,
            PinNames::PCM_FS => 19,
            PinNames::PCM_DIN => 20,
            PinNames::PCM_DOUT => 21,
            PinNames::GP22 => 22,
            PinNames::GP23 => 23,
            PinNames::GP24 => 24,
            PinNames::GP25 => 25,
            PinNames::GP26 => 26,
            PinNames::GP27 => 27,
            PinNames::PCIE_RP1_WAKE => 28,
            PinNames::FAN_TACH => 29,
            PinNames::HOST_SDA => 30,
            PinNames::HOST_SCL => 31,
            PinNames::ETH_RST_N => 32,
            PinNames::L33 => 33,
            PinNames::CD0_IO0_MICCLK => 34,
            PinNames::CD0_IO1_MICDAT0 => 35,
            PinNames::RP1_PCIE_CLKREQ_N => 36,
            PinNames::L37 => 37,
            PinNames::CD0_SDA => 38,
            PinNames::CD0_SCL => 39,
            PinNames::CD1_SDA => 40,
            PinNames::CD1_SCL => 41,
            PinNames::USB_VBUS_EN => 42,
            PinNames::USB_OC_N => 43,
            PinNames::RP1_STAT_LED => 44,
            PinNames::FAN_PWM => 45,
            PinNames::CD1_IO0_MICCLK => 46,
            PinNames::WAKE_2712 => 47,
            PinNames::CD1_IO1_MICDAT1 => 48,
            PinNames::EN_MAX_USB_CURRENT => 49,
            PinNames::L50 => 50,
            PinNames::L51 => 51,
            PinNames::L52 => 52,
            PinNames::L53 => 53,
        }
    }

    /// The human-readable name of this pin.
    pub open spec fn spec_name(self) -> Seq<char> {
        match self {
            PinNames::ID_SDA => "ID_SDA"@,
            PinNames::ID_SCL => "ID_SCL"@,
            PinNames::SDA => "SDA"@,
            PinNames::SCL => "SCL"@,
            PinNames::GPCLK0 => "GPCLK0"@,
            PinNames::GP5 => "GP5"@,
            PinNames::GP6 => "GP6"@,
            PinNames::CE1 => "CE1"@,
            PinNames::CE0 => "CE0"@,
            PinNames::MISO => "MISO"@,
            PinNames::MOSI => "MOSI"@,
            PinNames::SCLK => "SCLK"@,
            PinNames::PWM0 => "PWM0"@,
            PinNames::PWM1 => "PWM1"@,
            PinNames::TXD => "TXD"@,
            PinNames::RXD => "RXD"@,
            PinNames::GP16 => "GP16"@,
            PinNames::GP17 => "GP17"@,
            PinNames::PCM_CLK => "PCM_CLK"@,
            PinNames::PCM_FS => "PCM_FS"@,
            PinNames::PCM_DIN => "PCM_DIN"@,
            PinNames::PCM_DOUT => "PCM_DOUT"@,
            PinNames::GP22 => "GP22"@,
            PinNames::GP23 => "GP23"@,
            PinNames::GP24 => "GP24"@,
            PinNames::GP25 => "GP25"@,
            PinNames::GP26 => "GP26"@,
            PinNames::GP27 => "GP27"@,
            PinNames::PCIE_RP1_WAKE => "PCIE_RP1_WAKE"@,
            PinNames::FAN_TACH => "FAN_TACH"@,
            PinNames::HOST_SDA => "HOST_SDA"@,
            PinNames::HOST_SCL => "HOST_SCL"@,
            PinNames::ETH_RST_N => "ETH_RST_N"@,
            PinNames::L33 => "L33"@,
            PinNames::CD0_IO0_MICCLK => "CD0_IO0_MICCLK"@,
            PinNames::CD0_IO1_MICDAT0 => "CD0_IO1_MICDAT0"@,
            PinNames::RP1_PCIE_CLKREQ_N => "RP1_PCIE_CLKREQ_N"@,
            PinNames::L37 => "L37"@,
            PinNames::CD0_SDA => "CD0_SDA"@,
            PinNames::CD0_SCL => "CD0_SCL"@,
            PinNames::CD1_SDA => "CD1_SDA"@,
            PinNames::CD1_SCL => "CD1_SCL"@,
            PinNames::USB_VBUS_EN => "USB_VBUS_EN"@,
            PinNames::USB_OC_N => "USB_OC_N"@,
            PinNames::RP1_STAT_LED => "RP1_STAT_LED"@,
            PinNames::FAN_PWM => "FAN_PWM"@,
            PinNames::CD1_IO0_MICCLK => "CD1_IO0_MICCLK"@,
            PinNames::WAKE_2712 => "WAKE_2712"@,
            PinNames::CD1_IO1_MICDAT1 => "CD1_IO1_MICDAT1"@,
            PinNames::EN_MAX_USB_CURRENT => "EN_MAX_USB_CURRENT"@,
            PinNames::L50 => "L50"@,
            PinNames::L51 => "L51"@,
            PinNames::L52 => "L52"@,
            PinNames::L53 => "L53"@,
        }
    }

    /// Returns the unique numeric identifier of the pin.
    pub fn id(&self) -> (r: u16)
        ensures
            r == self.spec_id(),
    {
        match self {
            PinNames::ID_SDA => 0,
            PinNames::ID_SCL => 1,
            PinNames::SDA => 2,
            PinNames::SCL => 3,
            PinNames::GPCLK0 => 4,
            PinNames::GP5 => 5,
            PinNames::GP6 => 6,
            PinNames::CE1 => 7,
            PinNames::CE0 => 8,
            PinNames::MISO => 9,
            PinNames::MOSI => 10,
            PinNames::SCLK => 11,
            PinNames::PWM0 => 12,
            PinNames::PWM1 => 13,
            PinNames::TXD => 14,
            PinNames::RXD => 15,
            PinNames::GP16 => 16,
            PinNames::GP17 => 17,
            PinNames::PCM_CLK => 18,
            PinNames::PCM_FS => 19,
            PinNames::PCM_DIN => 20,
            PinNames::PCM_DOUT => 21,
            PinNames::GP22 => 22,
            PinNames::GP23 => 23,
            PinNames::GP24 => 24,
            PinNames::GP25 => 25,
            PinNames::GP26 => 26,
            PinNames::GP27 => 27,
            PinNames::PCIE_RP1_WAKE => 28,
            PinNames::FAN_TACH => 29,
            PinNames::HOST_SDA => 30,
            PinNames::HOST_SCL => 31,
            PinNames::ETH_RST_N => 32,
            PinNames::L33 => 33,
            PinNames::CD0_IO0_MICCLK => 34,
            PinNames::CD0_IO1_MICDAT0 => 35,
            PinNames::RP1_PCIE_CLKREQ_N => 36,
            PinNames::L37 => 37,
            PinNames::CD0_SDA => 38,
            PinNames::CD0_SCL => 39,
            PinNames::CD1_SDA => 40,
            PinNames::CD1_SCL => 41,
            PinNames::USB_VBUS_EN => 42,
            PinNames::USB_OC_N => 43,
            PinNames::RP1_STAT_LED => 44,
            PinNames::FAN_PWM => 45,
            PinNames::CD1_IO0_MICCLK => 46,
            PinNames::WAKE_2712 => 47,
            PinNames::CD1_IO1_MICDAT1 => 48,
            PinNames::EN_MAX_USB_CURRENT => 49,
            PinNames::L50 => 50,
            PinNames::L51 => 51,
            PinNames::L52 => 52,
            PinNames::L53 => 53,
        }
    }

    /// Returns the standard human-readable name of the pin.
    pub fn name(&self) -> (r: &'static str)
        ensures
            r@ == self.spec_name(),
    {
        match self {
            PinNames::ID_SDA => "ID_SDA",
            PinNames::ID_SCL => "ID_SCL",
            PinNames::SDA => "SDA",
            PinNames::SCL => "SCL",
            PinNames::GPCLK0 => "GPCLK0",
            PinNames::GP5 => "GP5",
            PinNames::GP6 => "GP6",
            PinNames::CE1 => "CE1",
            PinNames::CE0 => "CE0",
            PinNames::MISO => "MISO",
            PinNames::MOSI => "MOSI",
            PinNames::SCLK => "SCLK",
            PinNames::PWM0 => "PWM0",
            PinNames::PWM1 => "PWM1",
            PinNames::TXD => "TXD",
            PinNames::RXD => "RXD",
            PinNames::GP16 => "GP16",
            PinNames::GP17 => "GP17",
            PinNames::PCM_CLK => "PCM_CLK",
            PinNames::PCM_FS => "PCM_FS",
            PinNames::PCM_DIN => "PCM_DIN",
            PinNames::PCM_DOUT => "PCM_DOUT",
            PinNames::GP22 => "GP22",
            PinNames::GP23 => "GP23",
            PinNames::GP24 => "GP24",
            PinNames::GP25 => "GP25",
            PinNames::GP26 => "GP26",
            PinNames::GP27 => "GP27",
            PinNames::PCIE_RP1_WAKE => "PCIE_RP1_WAKE",
            PinNames::FAN_TACH => "FAN_TACH",
            PinNames::HOST_SDA => "HOST_SDA",
            PinNames::HOST_SCL => "HOST_SCL",
            PinNames::ETH_RST_N => "ETH_RST_N",
            PinNames::L33 => "L33",
            PinNames::CD0_IO0_MICCLK => "CD0_IO0_MICCLK",
            PinNames::CD0_IO1_MICDAT0 => "CD0_IO1_MICDAT0",
            PinNames::RP1_PCIE_CLKREQ_N => "RP1_PCIE_CLKREQ_N",
            PinNames::L37 => "L37",
            PinNames::CD0_SDA => "CD0_SDA",
            PinNames::CD0_SCL => "CD0_SCL",
            PinNames::CD1_SDA => "CD1_SDA",
            PinNames::CD1_SCL => "CD1_SCL",
            PinNames::USB_VBUS_EN => "USB_VBUS_EN",
            PinNames::USB_OC_N => "USB_OC_N",
            PinNames::RP1_STAT_LED => "RP1_STAT_LED",
            PinNames::FAN_PWM => "FAN_PWM",
            PinNames::CD1_IO0_MICCLK => "CD1_IO0_MICCLK",
            PinNames::WAKE_2712 => "WAKE_2712",
            PinNames::CD1_IO1_MICDAT1 => "CD1_IO1_MICDAT1",
            PinNames::EN_MAX_USB_CURRENT => "EN_MAX_USB_CURRENT",
            PinNames::L50 => "L50",
            PinNames::L51 => "L51",
            PinNames::L52 => "L52",
            PinNames::L53 => "L53",
        }
    }
}

/// The GPIO controller of this SoC.
#[derive(Debug, Clone, Copy)]
pub enum GPIO {
    /// The pin controller device.
    PinCtrl,
}

impl GPIO {
    /// The kernel label of this controller.
    pub open spec fn spec_name(self) -> Seq<char> {
        "pinctrl-bcm2711"@
    }

    /// Returns the kernel label of this controller.
    pub fn name(&self) -> (r: &'static str)
        ensures
            r@ == self.spec_name(),
    {
        "pinctrl-bcm2711"
    }
}

/// The GPIO chip to open on this platform.
pub const GPIO_CHIP: GPIO = GPIO::PinCtrl;

} // verus!
