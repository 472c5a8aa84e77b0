//! Performance calculation.

pub mod calculations;
