use graphmemes::chip::BCMHeader;
use graphmemes::chip::PiHeader;
use graphmemes::chip::PinMode as ChipPinMode;
use graphmemes::digital::Bias;
use graphmemes::digital::PinEvent;
use graphmemes::digital::PinMode;
use graphmemes::digital::Polarity;
use graphmemes::pi4;
use graphmemes::pi5;
use graphmemes::tooling::windows_safe_path;
use graphmemes::tooling::Package;
use graphmemes::tooling::Platform;
use graphmemes::tooling::Version;

#[test]
fn test_polarity_conversions() {
    let polarity = Polarity::from(true);
    assert_eq!(polarity, Polarity::Normal);
    assert_eq!(polarity.not(), Polarity::Inverted);
    assert_eq!(Polarity::from(false), Polarity::Inverted);
    assert!(Polarity::Normal.as_bool());
    assert!(!Polarity::Inverted.as_bool());
}

#[test]
fn test_digital_enums() {
    assert_eq!(Bias::Floating, Bias::Floating);
    assert_ne!(Bias::PullUp, Bias::PullDown);
    assert_eq!(PinMode::Input, PinMode::Input);
    assert_ne!(PinEvent::RisingEdge, PinEvent::FallingEdge);
}

#[test]
fn test_bcm_header_ids() {
    assert_eq!(BCMHeader::GP0.id(), 0);
    assert_eq!(BCMHeader::GP17.id(), 17);
    assert_eq!(BCMHeader::GP27.id(), 27);
    assert_eq!(BCMHeader::GP5.name(), "GP5");
}

#[test]
fn test_pi_header_ids() {
    assert_eq!(PiHeader::P27.id(), 0);
    assert_eq!(PiHeader::P3.id(), 2);
    assert_eq!(PiHeader::P13.id(), 27);
    assert_eq!(PiHeader::P40.name(), "P40");
}

#[test]
fn test_pin_names() {
    assert_eq!(pi4::PinNames::ID_SDA.id(), 0);
    assert_eq!(pi4::PinNames::SDA.id(), 2);
    assert_eq!(pi4::PinNames::L53.id(), 53);
    assert_eq!(pi4::PinNames::PCM_CLK.name(), "PCM_CLK");
}

#[test]
fn test_chip_pin_mode_rendering() {
    assert_eq!(ChipPinMode::Input.as_str(), "In");
    assert_eq!(ChipPinMode::Output.as_str(), "Out");
    assert_eq!(ChipPinMode::Alt5.as_str(), "Alt5");
}

#[test]
fn test_gpio_chip_labels() {
    assert_eq!(pi4::GPIO_CHIP.name(), "pinctrl-bcm2711");
    assert_eq!(pi5::GPIO_CHIP.name(), "pinctrl-rp1");
}

#[test]
fn test_platform_targets() {
    assert_eq!(Platform::Pi5.target(), "aarch64-unknown-linux-gnu");
    assert_eq!(Platform::Pi4.target(), "armv7-unknown-linux-gnueabihf");
    assert_eq!(Platform::Pi3.target(), "armv7-unknown-linux-gnueabihf");
    assert_eq!(Platform::PiZero.target(), "arm-unknown-linux-gnueabihf");
}

#[test]
fn test_tooling_renderings() {
    assert_eq!(Platform::PiZero.as_str(), "pi-zero");
    assert_eq!(Package::EspHal.as_str(), "esp-hal");
    assert_eq!(Package::Examples.as_str(), "examples");
    assert_eq!(Version::Minor.as_str(), "minor");
}

#[test]
fn test_windows_safe_path() {
    assert_eq!(windows_safe_path("\\\\?\\C:\\repo\\pkg"), "C:\\repo\\pkg");
    assert_eq!(windows_safe_path("/home/user/pkg"), "/home/user/pkg");
    assert_eq!(windows_safe_path(""), "");
    // Every occurrence is removed, wherever it stands.
    assert_eq!(windows_safe_path("a\\\\?\\b"), "ab");
}
