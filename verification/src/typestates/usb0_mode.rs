//! Operating modes of the full-speed USB controller.
//!
//! The hardware supports both roles, but the public surface only defines the
//! device-mode enable path: no transition produces a `Host`-mode handle, an
//! explicit gap left open rather than filled in.

use vstd::prelude::*;

verus! {

/// Implemented by the types that encode the operating mode of USB0.
pub trait Usb0Mode {}

/// The operating mode of the controller is not known.
pub struct Unknown;

impl Usb0Mode for Unknown {}

/// The controller is wired as a USB device.
pub struct Device;

impl Usb0Mode for Device {}

/// The controller is wired as a USB host.
pub struct Host;

impl Usb0Mode for Host {}

} // verus!
