//! The elements that stages exchange and the stages that produce them.

pub mod collection;
pub mod policy_filter;
pub mod telemetry;
