//! Manifests: what the storage keeps of an index.

use crate::metastore::split::SplitMetadataView;
use crate::metastore::split_map::SplitMap;
use vstd::prelude::*;

verus! {

/// The version that a new manifest is marked with.
pub const FILE_FORMAT_VERSION: &'static str = "0";

/// What a manifest says of the index itself.
#[derive(Debug)]
pub struct IndexMetadata {
    /// The version of the manifest's format.
    pub version: String,
}

/// The manifest of an index: the index and its splits.
pub struct MetadataSet {
    pub index: IndexMetadata,
    pub splits: SplitMap,
}

/// The mathematical value of a [`MetadataSet`].
#[verifier::ext_equal]
pub struct MetadataSetView {
    pub version: Seq<char>,
    pub splits: Map<Seq<char>, SplitMetadataView>,
}

impl View for MetadataSet {
    type V = MetadataSetView;

    open spec fn view(&self) -> MetadataSetView {
        MetadataSetView { version: self.index.version@, splits: self.splits@ }
    }
}

impl MetadataSetView {
    /// The manifest of an index without splits.
    pub open spec fn empty() -> MetadataSetView {
        MetadataSetView { version: FILE_FORMAT_VERSION@, splits: Map::empty() }
    }

    /// The manifest with `split` registered under `split_id`.
    pub open spec fn with_split(self, split_id: Seq<char>, split: SplitMetadataView) -> MetadataSetView {
        MetadataSetView { splits: self.splits.insert(split_id, split), ..self }
    }

    /// The manifest without the split `split_id`.
    pub open spec fn without_split(self, split_id: Seq<char>) -> MetadataSetView {
        MetadataSetView { splits: self.splits.remove(split_id), ..self }
    }
}

impl MetadataSet {
    /// The manifest of an index without splits.
    pub fn empty() -> (set: MetadataSet)
        ensures
            set@ == MetadataSetView::empty(),
    {
        MetadataSet {
            index: IndexMetadata { version: FILE_FORMAT_VERSION.to_owned() },
            splits: SplitMap::new(),
        }
    }
}

impl Clone for MetadataSet {
    fn clone(&self) -> (copy: Self)
        ensures
            copy@ == self@,
    {
        MetadataSet {
            index: IndexMetadata { version: self.index.version.clone() },
            splits: self.splits.clone(),
        }
    }
}

} // verus!
