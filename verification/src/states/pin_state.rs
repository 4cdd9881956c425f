//! The states a pin can be assigned to.

use vstd::prelude::*;

verus! {

/// Implemented by types that indicate pin state.
pub trait PinState {}

/// Marks a pin as being unused.
pub struct Unused;

impl PinState for Unused {}

} // verus!
