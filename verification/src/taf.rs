//! Terminal aerodrome forecasts: the grammar of a bulletin, and the builder
//! that resolves its times.

pub mod builder;
pub mod parser;
