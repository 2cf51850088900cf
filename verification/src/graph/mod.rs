//! The ports by which stages are wired together.

pub mod port;

pub use port::{Inlet, Links, Outlet};
