//! The market's operations, one module each: the records an operation reads and writes,
//! gathered with the host's inputs, and the handler that applies it.

pub mod bet;
pub mod claim;
pub mod end_market;
pub mod create_market;
pub mod initialize_config;
