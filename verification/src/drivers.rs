//! Driver-level collaborators built on top of other peripherals.

pub mod timer;
