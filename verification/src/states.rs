//! The older typestate vocabulary kept for the peripherals that still use it:
//! lifecycle states, USB full-speed modes, clock-configuration states, GPIO
//! directions and pin states.

pub mod clock_state;
pub mod direction;
pub mod gpio;
pub mod init_state;
pub mod main_clock;
pub mod pin_state;
pub mod usbfs_mode;

use vstd::prelude::*;

use core::marker::PhantomData;

verus! {

/// Proof that the clock-tree configuration has been frozen with the USB
/// clocks configured properly.  An application can only obtain this token
/// from a frozen clock configuration.
pub struct ValidUsbClockToken {
    pub(crate) __: PhantomData<()>,
}

} // verus!
