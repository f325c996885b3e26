//! SSH connections (see [`crate::flows::connect`]).

pub use crate::flows::connect;
