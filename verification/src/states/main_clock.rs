//! The selectable sources for the main system clock, in the older
//! vocabulary.

use vstd::prelude::*;

verus! {

/// The clock source currently driving the main system clock.
#[derive(Clone, Copy, Debug, PartialEq, Eq, Structural)]
pub enum MainClock {
    Unknown,
    Fro12MHz,
    Fro96MHz,
}

} // verus!
