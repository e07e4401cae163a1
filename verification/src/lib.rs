//! Per-block summary statistics for a stream of block messages.
//!
//! A block message carries a header and a list of shard records. For each
//! message the consumer adds up, over the shards, the transactions and
//! receipts of the chunks that are present and the receipt execution
//! outcomes, and emits one record with the totals.

pub mod config;
pub mod consumer;
pub mod decimal;
pub mod hash;
pub mod message;
pub mod record;
