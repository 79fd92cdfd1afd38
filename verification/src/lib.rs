//! Verified core of a block explorer indexer for the Namada chain: how block
//! results are read, which database views exist and what their queries are,
//! and the decisions that the explorer's server takes on the data it serves.
pub mod indexer;
pub mod server;
pub mod text;
pub mod utils;
pub mod views;
