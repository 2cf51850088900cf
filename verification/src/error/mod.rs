//! The errors of the control loop.

pub mod governance_errors;
