//! The decisions of an indexing service, separated from the I/O around them:
//! what the metastore of an index does with a request, what a shard consumer
//! does with the records it fetched, and in which order the actors of an
//! indexing pipeline are started.

pub mod config;
pub mod json;
pub mod kinesis;
pub mod metastore;
pub mod pipeline;
pub mod source;
