//! Audio destinations.

pub mod sink;
