//! Peripheral drivers and the collaborators they share.

pub mod anactrl;
pub mod pmc;
pub mod syscon;
pub mod usb0;
pub mod usb1;
