//! The common face of the two USB controllers.

use vstd::prelude::*;

use crate::typestates::init_state::InitState;

verus! {

/// Which physical USB controller a handle drives.
#[derive(Clone, Copy, Debug, PartialEq, Eq, Structural)]
pub enum UsbPeripheral {
    USB0,
    USB1,
}

/// Implemented by enabled USB controller handles; names the physical
/// controller behind the handle.
pub trait Usb<State: InitState> {
    /// The physical controller this handle drives.
    const USB: UsbPeripheral;
}

} // verus!
