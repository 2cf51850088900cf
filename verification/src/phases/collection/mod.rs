//! Collection: gathering telemetry and handing it on to those who asked for it.

pub mod clearinghouse;
pub mod effects;
pub mod laws;
pub mod model;
pub mod run;
