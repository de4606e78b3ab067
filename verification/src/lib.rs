//! Parsing of aviation weather bulletins (METAR, SPECI and TAF) into typed
//! observations, with every parser stated against a grammar over bytes.

pub mod error;
pub mod lexical;
pub mod tokens;
pub mod metar;
pub mod taf;
pub mod utils;
