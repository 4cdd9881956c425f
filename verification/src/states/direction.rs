//! GPIO pin directions.

use vstd::prelude::*;

verus! {

/// Implemented by types that indicate GPIO pin direction.
pub trait Direction {}

/// The direction of the pin is not known.
pub struct Unknown;

impl Direction for Unknown {}

/// The pin is configured as an input.
pub struct Input;

impl Direction for Input {}

/// The pin is configured as an output.
pub struct Output;

impl Direction for Output {}

/// Directions a pin can be read from without first reconfiguring it.
pub trait NotOutput: Direction {}

impl NotOutput for Unknown {}

impl NotOutput for Input {}

} // verus!
