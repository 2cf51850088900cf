//! The phases of the control loop.

pub mod collection;
