//! The configuration of an index.

use vstd::prelude::*;

verus! {

/// A number of bytes, as `byte_unit` represents it.
#[verifier::external_type_specification]
#[verifier::external_body]
pub struct ExByte(byte_unit::Byte);

/// A TOML value.
#[verifier::external_type_specification]
#[verifier::external_body]
pub struct ExTomlValue(toml::Value);

/// What the indexing of an index may use.
pub struct IndexingResources {
    pub num_threads: usize,
    pub heap_size: byte_unit::Byte,
}

/// When the documents at hand become a split.
pub struct CommitPolicy {}

/// How splits are demultiplexed.
pub struct DemuxPolicy {}

/// How splits are merged.
pub struct MergePolicy {}

/// How long splits are retained.
pub struct RetentionPolicy {}

/// How an index is built.
pub struct IndexingSettings {
    pub commit_policy: CommitPolicy,
    pub demux_policy: DemuxPolicy,
    pub merge_policy: MergePolicy,
    pub retention_policy: RetentionPolicy,
    pub resources: IndexingResources,
}

/// A source of documents, with the parameters that its type calls for.
pub struct SourceConfig {
    pub source_id: String,
    pub source_type: String,
    pub params: toml::Value,
}

/// An index: its name, where it is stored, how it is built and from what.
pub struct IndexObject {
    pub index_id: String,
    pub index_uri: String,
    pub indexing_settings: IndexingSettings,
    pub sources: Vec<SourceConfig>,
}

} // verus!
