//! Whether a clock-tree configuration can still be changed.

use vstd::prelude::*;

verus! {

/// Implemented by the types that encode the state of a clock configuration.
pub trait ClockState {}

/// The clock configuration can still be changed.
pub struct Configurable;

impl ClockState for Configurable {}

/// The clock configuration has been frozen and can no longer change.
pub struct Frozen;

impl ClockState for Frozen {}

} // verus!
