//! Typestate-driven lifecycle management for the two USB controllers of an
//! LPC55-class microcontroller: a full-speed unit (USB0) and a high-speed
//! unit (USB1).
//!
//! A peripheral handle carries its lifecycle state (`Unknown`, `Enabled`,
//! `Disabled`) and operating mode (`Unknown`, `Device`, `Host`) in its type.
//! Transition methods consume the handle by value and return a handle of the
//! new type, so using a peripheral before it is enabled, enabling it twice,
//! or disabling a handle that is not enabled is not expressible.
//!
//! The memory-mapped hardware the transitions drive — the USB register
//! blocks, and the power-management (PMC), system-configuration (SYSCON) and
//! analog-control (ANACTRL) collaborators — is modeled here as plain register
//! values, and every register operation a transition performs is recorded in
//! a [`trace::HwTrace`].  The contract of each transition pins down the exact
//! ordered list of hardware operations it performs, the resulting collaborator
//! state, and the registers of the returned handle.

pub mod clocks;
pub mod drivers;
pub mod peripherals;
pub mod registers;
pub mod states;
pub mod trace;
pub mod traits;
pub mod typestates;
