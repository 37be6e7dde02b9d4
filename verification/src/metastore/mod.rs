//! A metastore that keeps one manifest per index.
//!
//! The metastore answers from memory and persists every change. It performs no I/O itself: an
//! operation that changes an index yields the manifest to write, and the change is made once
//! the caller reports that the manifest was written.

pub mod behaviour;
pub mod error;
pub mod laws;
pub mod manifest;
pub mod model;
pub mod single_file;
pub mod split;
pub mod split_map;
