//! Telemetry collection for an elasticity controller.

pub mod channel;
pub mod elements;
pub mod error;
pub mod graph;
pub mod pairs;
pub mod phases;
pub mod text;

use vstd::prelude::*;

verus! {

/// The empty answer that confirms a command.
pub type Ack = ();

} // verus!
