//! The METAR grammar: one module per group of a report, and the assembler
//! that puts the groups together.

pub mod wind;
pub mod visibility;
pub mod runway;
pub mod weather;
pub mod cloud;
pub mod groups;
pub mod trend;
pub mod report;
pub mod laws;
