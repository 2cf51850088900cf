//! What the operations of the clearinghouse do, said of the values that callers
//! hand in and get back: each law is about the outcome of a call.

pub mod commands;
pub mod lists;
pub mod making;
pub mod runs;
pub mod telemetry;
