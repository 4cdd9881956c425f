//! Operating modes of the full-speed USB controller, in the older vocabulary.

use vstd::prelude::*;

verus! {

/// Implemented by the types that encode the operating mode of the
/// full-speed USB controller.
pub trait UsbfsMode {}

/// The operating mode of the controller is not known.
pub struct Unknown;

impl UsbfsMode for Unknown {}

/// The controller is wired as a USB device.
pub struct Device;

impl UsbfsMode for Device {}

/// The controller is wired as a USB host.
pub struct Host;

impl UsbfsMode for Host {}

} // verus!
