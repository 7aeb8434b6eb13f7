//! Rules on callback queries.
pub mod data;

pub use data::DataRule;
