//! The vehicle body: snapshots, prediction and correction.

pub mod body;
pub mod laws;
pub mod utils;
