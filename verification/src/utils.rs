//! Builders for the groups of a forecast, and the resolution of times.

pub mod numbers;
pub mod times;
pub mod visibility;
pub mod wind;

pub use crate::utils::times::ddhhmm_to_datetime;
pub use crate::utils::wind::{Wind, WindBuilder};
