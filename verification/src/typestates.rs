//! Typestate vocabulary shared by the peripheral drivers: lifecycle states,
//! operating modes, the main-clock selection, and the unforgeable capability
//! tokens issued by the clock-configuration collaborator.

pub mod init_state;
pub mod main_clock;
pub mod usb0_mode;
pub mod usb1_mode;

use vstd::prelude::*;

verus! {

/// Proof that the frozen clock tree supports the Flexcomm peripherals.
///
/// An application can only obtain this token from a frozen clock-tree
/// configuration; the private field keeps it unforgeable elsewhere.
#[derive(Clone, Copy)]
pub struct ClocksSupportFlexcommToken {
    pub(crate) __: (),
}

/// Proof that the frozen clock tree supports full-speed USB: the 96 MHz
/// oscillator that the USB0 clock divider taps is configured and running.
///
/// An application can only obtain this token from a frozen clock-tree
/// configuration for which the USB clocks have been validated.
#[derive(Clone, Copy)]
pub struct ClocksSupportUsbfsToken {
    pub(crate) __: (),
}

/// Proof that the frozen clock tree supports high-speed USB: the clock path
/// feeding the USB1 PHY (32 MHz crystal into the USB PLL) has been validated.
///
/// An application can only obtain this token from a frozen clock-tree
/// configuration for which the USB clocks have been validated.
#[derive(Clone, Copy)]
pub struct ClocksSupportUsbhsToken {
    pub(crate) __: (),
}

/// Proof that the frozen clock tree supports the micro-tick timer.
#[derive(Clone, Copy)]
pub struct ClocksSupportUtickToken {
    pub(crate) __: (),
}

/// Proof that the frozen clock tree supports the touch controller.
#[derive(Clone, Copy)]
pub struct ClocksSupportTouchToken {
    pub(crate) __: (),
}

/// Proof that the frozen clock tree keeps the 1 MHz FRO running.
#[derive(Clone, Copy)]
pub struct ClocksSupport1MhzFroToken {
    pub(crate) __: (),
}

/// Proof that the frozen clock tree keeps the 32 kHz FRO running.
#[derive(Clone, Copy)]
pub struct ClocksSupport32KhzFroToken {
    pub(crate) __: (),
}

} // verus!
