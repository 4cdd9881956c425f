//! Lifecycle states of a peripheral handle.
//!
//! The default state of peripherals is `Unknown`: execution may have been
//! handed over from a bootloader, so the reset state documented in the user
//! manual cannot be relied on.  Always-on peripherals such as SYSCON are the
//! exception and carry no lifecycle state.

use vstd::prelude::*;

verus! {

/// Implemented by the types that encode the lifecycle state of a peripheral.
pub trait InitState {}

/// The state of the peripheral is not known.
pub struct Unknown;

impl InitState for Unknown {}

/// The hardware component is enabled: initialized and usable for its
/// intended purpose.  Carries an optional payload that an API can use for
/// data that is only meaningful while the peripheral is enabled.
pub struct Enabled<T = ()>(pub T);

impl InitState for Enabled {}

/// The hardware component is disabled.
pub struct Disabled;

impl InitState for Disabled {}

} // verus!
