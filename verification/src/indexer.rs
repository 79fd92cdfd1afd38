//! What the indexer reads from the chain and writes to its database.
pub mod block_result;
pub mod id;
pub mod tx;
