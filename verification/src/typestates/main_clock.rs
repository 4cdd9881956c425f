//! The selectable sources for the main system clock.

use vstd::prelude::*;

verus! {

/// The clock source currently driving the main system clock.
#[derive(Clone, Copy, Debug, PartialEq, Eq, Structural)]
pub enum MainClock {
    Fro12Mhz,
    Fro96Mhz,
    Pll0,
}

} // verus!
