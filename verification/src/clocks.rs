//! The clock-configuration collaborator's boundary: issuance of the
//! capability tokens the USB enable transitions demand.
//!
//! The clock tree itself is configured elsewhere; the USB drivers only
//! consume a token asserting "the clocking this peripheral class needs is
//! configured and frozen".  A token is issued if and only if the frozen
//! configuration satisfies the peripheral's requirement, so no code path can
//! reach a gated transition with unvalidated clocking.

use vstd::prelude::*;

use crate::typestates::main_clock::MainClock;
use crate::typestates::{ClocksSupportUsbfsToken, ClocksSupportUsbhsToken};

verus! {

/// A frozen clock-tree configuration: the facts about it that token issuance
/// depends on.
#[derive(Clone, Copy, Debug, PartialEq, Eq, Structural)]
pub struct Clocks {
    /// The source driving the main system clock.
    pub main_clock: MainClock,
    /// Whether the 96 MHz FRO is configured and running.  Full-speed USB
    /// taps it through the USB0 clock divider.
    pub fro96mhz_on: bool,
    /// Whether a 32 MHz crystal is fitted and usable.  High-speed USB powers
    /// it and feeds it to the USB PLL.
    pub xtal32m_present: bool,
}

impl Clocks {
    /// Issues the full-speed USB clock token: `Some` if and only if the
    /// frozen configuration keeps the 96 MHz FRO running.
    pub fn support_usbfs_token(&self) -> (token: Option<ClocksSupportUsbfsToken>)
        ensures
            token.is_some() <==> self.fro96mhz_on,
    {
        if self.fro96mhz_on {
            Some(ClocksSupportUsbfsToken { __: () })
        } else {
            None
        }
    }

    /// Issues the high-speed USB clock token: `Some` if and only if a 32 MHz
    /// crystal is fitted.
    pub fn support_usbhs_token(&self) -> (token: Option<ClocksSupportUsbhsToken>)
        ensures
            token.is_some() <==> self.xtal32m_present,
    {
        if self.xtal32m_present {
            Some(ClocksSupportUsbhsToken { __: () })
        } else {
            None
        }
    }
}

} // verus!
