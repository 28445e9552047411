//! GPIO chip identity of the Pi 5 family.

use vstd::prelude::*;

verus! {

/// The GPIO controller of this SoC.
#[derive(Debug, Clone, Copy)]
pub enum GPIO {
    /// The pin controller device.
    PinCtrl,
}

impl GPIO {
    /// The kernel label of this controller.
    pub open spec fn spec_name(self) -> Seq<char> {
        "pinctrl-rp1"@
    }

    /// Returns the kernel label of this controller.
    pub fn name(&self) -> (r: &'static str)
        ensures
            r@ == self.spec_name(),
    {
        "pinctrl-rp1"
    }
}

/// The GPIO chip to open on this platform.
pub const GPIO_CHIP: GPIO = GPIO::PinCtrl;

} // verus!
