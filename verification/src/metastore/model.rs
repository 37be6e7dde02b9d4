//! What each operation of the metastore amounts to, stated over the indexes that the metastore
//! knows: a map from index URIs to manifests.

use crate::metastore::error::{MetastoreErrorView, StorageOperation};
use crate::metastore::manifest::MetadataSetView;
use crate::metastore::split::{SplitMetadataView, SplitState};
use std::ops::Range;
use vstd::prelude::*;

verus! {

/// A manifest that has to be written before the metastore may change.
#[verifier::ext_equal]
pub struct ManifestUpdateView {
    pub index_uri: Seq<char>,
    pub metadata_set: MetadataSetView,
}

/// Why a manifest could not be read or written.
pub enum ManifestFailureView {
    Storage { cause: Seq<char> },
    Encoding { cause: Seq<char> },
}

/// What the creation of an index does next.
#[verifier::ext_equal]
pub enum CreateIndexStepView {
    LoadManifest { index_uri: Seq<char> },
    WriteManifest { update: ManifestUpdateView },
}

/// The split `split_id` of the index `index_uri`, or the error that reports its absence.
pub open spec fn find_split(
    store: Map<Seq<char>, MetadataSetView>,
    index_uri: Seq<char>,
    split_id: Seq<char>,
) -> Result<SplitMetadataView, MetastoreErrorView> {
    if !store.contains_key(index_uri) {
        Err(MetastoreErrorView::IndexDoesNotExist { index_uri })
    } else if !store[index_uri].splits.contains_key(split_id) {
        Err(MetastoreErrorView::DoesNotExist { split_id })
    } else {
        Ok(store[index_uri].splits[split_id])
    }
}

/// The update that puts `split` in the place of the split `split_id`.
pub open spec fn replace_split(
    store: Map<Seq<char>, MetadataSetView>,
    index_uri: Seq<char>,
    split_id: Seq<char>,
    split: SplitMetadataView,
) -> ManifestUpdateView {
    ManifestUpdateView { index_uri, metadata_set: store[index_uri].with_split(split_id, split) }
}

/// An index whose manifest is not stored yet starts without splits; a stored manifest is loaded.
pub open spec fn create_index(index_uri: Seq<char>, exists: Result<bool, Seq<char>>) -> Result<
    CreateIndexStepView,
    MetastoreErrorView,
> {
    match exists {
        Ok(true) => Ok(CreateIndexStepView::LoadManifest { index_uri }),
        Ok(false) => Ok(
            CreateIndexStepView::WriteManifest {
                update: ManifestUpdateView { index_uri, metadata_set: MetadataSetView::empty() },
            },
        ),
        Err(cause) => Err(
            MetastoreErrorView::InternalError { operation: StorageOperation::Exists, cause },
        ),
    }
}

/// A loaded manifest is written back as it is.
pub open spec fn load_manifest(
    index_uri: Seq<char>,
    manifest: Result<MetadataSetView, ManifestFailureView>,
) -> Result<ManifestUpdateView, MetastoreErrorView> {
    match manifest {
        Ok(metadata_set) => Ok(ManifestUpdateView { index_uri, metadata_set }),
        Err(ManifestFailureView::Storage { cause }) => Err(
            MetastoreErrorView::InternalError { operation: StorageOperation::GetAll, cause },
        ),
        Err(ManifestFailureView::Encoding { cause }) => Err(
            MetastoreErrorView::InvalidManifest { cause },
        ),
    }
}

/// A split is registered as staged, under an id that no split of the index has.
pub open spec fn stage_split(
    store: Map<Seq<char>, MetadataSetView>,
    index_uri: Seq<char>,
    split_id: Seq<char>,
    split: SplitMetadataView,
) -> Result<ManifestUpdateView, MetastoreErrorView> {
    match find_split(store, index_uri, split_id) {
        Ok(_) => Err(MetastoreErrorView::ExistingSplitId { split_id }),
        Err(MetastoreErrorView::DoesNotExist { .. }) => Ok(
            replace_split(store, index_uri, split_id, split.in_state(SplitState::Staged)),
        ),
        Err(error) => Err(error),
    }
}

/// A staged split becomes published; a published one stays so, with nothing to write.
pub open spec fn publish_split(
    store: Map<Seq<char>, MetadataSetView>,
    index_uri: Seq<char>,
    split_id: Seq<char>,
) -> Result<Option<ManifestUpdateView>, MetastoreErrorView> {
    match find_split(store, index_uri, split_id) {
        Err(error) => Err(error),
        Ok(split) => match split.split_state {
            SplitState::Staged => Ok(
                Some(
                    replace_split(store, index_uri, split_id, split.in_state(SplitState::Published)),
                ),
            ),
            SplitState::Published => Ok(None),
            SplitState::ScheduledForDeletion => Err(
                MetastoreErrorView::SplitIsNotStaged { split_id },
            ),
        },
    }
}

/// Any split can be scheduled for deletion; one that is already stays so, with nothing to write.
pub open spec fn mark_split_as_deleted(
    store: Map<Seq<char>, MetadataSetView>,
    index_uri: Seq<char>,
    split_id: Seq<char>,
) -> Result<Option<ManifestUpdateView>, MetastoreErrorView> {
    match find_split(store, index_uri, split_id) {
        Err(error) => Err(error),
        Ok(split) => if split.split_state == SplitState::ScheduledForDeletion {
            Ok(None)
        } else {
            Ok(
                Some(
                    replace_split(
                        store,
                        index_uri,
                        split_id,
                        split.in_state(SplitState::ScheduledForDeletion),
                    ),
                ),
            )
        },
    }
}

/// A split is deleted unless it is published.
pub open spec fn delete_split(
    store: Map<Seq<char>, MetadataSetView>,
    index_uri: Seq<char>,
    split_id: Seq<char>,
) -> Result<ManifestUpdateView, MetastoreErrorView> {
    match find_split(store, index_uri, split_id) {
        Err(error) => Err(error),
        Ok(split) => if split.split_state == SplitState::Published {
            Err(MetastoreErrorView::Forbidden { split_id, split_state: split.split_state })
        } else {
            Ok(
                ManifestUpdateView {
                    index_uri,
                    metadata_set: store[index_uri].without_split(split_id),
                },
            )
        },
    }
}

/// The indexes once the update is in force.
pub open spec fn updated(
    store: Map<Seq<char>, MetadataSetView>,
    update: ManifestUpdateView,
) -> Map<Seq<char>, MetadataSetView> {
    store.insert(update.index_uri, update.metadata_set)
}

/// The indexes after an attempt to write the manifest of `update`: an update whose manifest was
/// not written has no effect.
pub open spec fn committed(
    store: Map<Seq<char>, MetadataSetView>,
    update: ManifestUpdateView,
    written: Result<(), ManifestFailureView>,
) -> Map<Seq<char>, MetadataSetView> {
    if written is Ok {
        updated(store, update)
    } else {
        store
    }
}

/// What the caller of an operation is told of the attempt to write its manifest.
pub open spec fn write_result(written: Result<(), ManifestFailureView>) -> Result<(), MetastoreErrorView> {
    match written {
        Ok(()) => Ok(()),
        Err(ManifestFailureView::Storage { cause }) => Err(
            MetastoreErrorView::InternalError { operation: StorageOperation::Put, cause },
        ),
        Err(ManifestFailureView::Encoding { cause }) => Err(
            MetastoreErrorView::InvalidManifest { cause },
        ),
    }
}

/// The indexes after an attempt to delete the manifest of `index_uri`.
pub open spec fn index_deleted(
    store: Map<Seq<char>, MetadataSetView>,
    index_uri: Seq<char>,
    deleted: Result<(), Seq<char>>,
) -> Map<Seq<char>, MetadataSetView> {
    if deleted is Ok {
        store.remove(index_uri)
    } else {
        store
    }
}

/// What the caller is told of the attempt to delete a manifest.
pub open spec fn delete_index_result(deleted: Result<(), Seq<char>>) -> Result<(), MetastoreErrorView> {
    match deleted {
        Ok(()) => Ok(()),
        Err(cause) => Err(
            MetastoreErrorView::InternalError { operation: StorageOperation::Delete, cause },
        ),
    }
}

/// `ids` names each of the splits that the search selects exactly once.
pub open spec fn selects(
    ids: Seq<Seq<char>>,
    splits: Map<Seq<char>, SplitMetadataView>,
    state: SplitState,
    time_range: Option<Range<u64>>,
) -> bool {
    &&& ids.no_duplicates()
    &&& forall|id: Seq<char>| #[trigger]
        ids.contains(id) <==> splits.contains_key(id) && splits[id].selected_by(state, time_range)
}

/// The metadata of the splits that `ids` names.
pub open spec fn metadata_of(
    ids: Seq<Seq<char>>,
    splits: Map<Seq<char>, SplitMetadataView>,
) -> Seq<SplitMetadataView> {
    ids.map_values(|id: Seq<char>| splits[id])
}

/// `listing` holds the metadata of each of the splits that the search selects exactly once, in
/// some order.
pub open spec fn lists(
    listing: Seq<SplitMetadataView>,
    splits: Map<Seq<char>, SplitMetadataView>,
    state: SplitState,
    time_range: Option<Range<u64>>,
) -> bool {
    exists|ids: Seq<Seq<char>>| #[trigger]
        selects(ids, splits, state, time_range) && listing == metadata_of(ids, splits)
}

} // verus!
