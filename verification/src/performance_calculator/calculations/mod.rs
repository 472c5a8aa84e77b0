//! Calculations over portfolio events.

pub mod streaming;
