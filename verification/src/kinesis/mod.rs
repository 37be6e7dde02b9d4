//! Reading from an Amazon Kinesis data stream.

pub mod behaviour;
pub mod laws;
pub mod shard_consumer;
