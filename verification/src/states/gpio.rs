//! General-purpose I/O levels.

use vstd::prelude::*;

verus! {

/// The logic level of a GPIO pin.
#[derive(Clone, Copy, Debug, PartialEq, Eq, Structural)]
pub enum Level {
    Low,
    High,
}

} // verus!
