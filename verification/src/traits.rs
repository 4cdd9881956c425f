//! Traits shared by the peripheral drivers.

pub mod usb;
