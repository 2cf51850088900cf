//! The filter that lets items pass or blocks them, as a policy says.

pub mod protocol;
