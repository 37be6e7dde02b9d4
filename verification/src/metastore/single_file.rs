//! A metastore that keeps the manifest of each index in one file of a storage.

use crate::metastore::error::{MetastoreError, MetastoreErrorView, StorageOperation};
use crate::metastore::manifest::{MetadataSet, MetadataSetView};
use crate::metastore::model;
use crate::metastore::model::{CreateIndexStepView, ManifestFailureView, ManifestUpdateView};
use crate::metastore::split::{SplitMetadata, SplitMetadataView, SplitState};
use crate::metastore::split_map;
use std::ops::Range;
use vstd::hash_map::StringHashMap;
use vstd::prelude::*;

verus! {

/// A manifest that has to be written before the metastore may change.
///
/// It is the manifest that the metastore held when the operation began, with the change made to
/// it. The operation that yields it and [`SingleFileMetastore::commit`] belong together: no other
/// change of the index may come between them.
pub struct ManifestUpdate {
    index_uri: String,
    metadata_set: MetadataSet,
}

impl View for ManifestUpdate {
    type V = ManifestUpdateView;

    closed spec fn view(&self) -> ManifestUpdateView {
        ManifestUpdateView { index_uri: self.index_uri@, metadata_set: self.metadata_set@ }
    }
}

impl ManifestUpdate {
    /// The index that the manifest is about; also where it is to be written.
    pub fn index_uri(&self) -> (index_uri: &String)
        ensures
            index_uri@ == self@.index_uri,
    {
        &self.index_uri
    }

    /// The manifest to write.
    pub fn metadata_set(&self) -> (metadata_set: &MetadataSet)
        ensures
            metadata_set@ == self@.metadata_set,
    {
        &self.metadata_set
    }
}

/// Why a manifest could not be read or written.
#[derive(Debug)]
pub enum ManifestFailure {
    /// The storage failed.
    Storage { cause: String },
    /// The bytes are no manifest, or the manifest has no bytes.
    Encoding { cause: String },
}

impl View for ManifestFailure {
    type V = ManifestFailureView;

    open spec fn view(&self) -> ManifestFailureView {
        match *self {
            ManifestFailure::Storage { cause } => ManifestFailureView::Storage { cause: cause@ },
            ManifestFailure::Encoding { cause } => ManifestFailureView::Encoding { cause: cause@ },
        }
    }
}

/// What the creation of an index does next.
pub enum CreateIndexStep {
    /// Read the manifest that is stored at `index_uri`.
    LoadManifest { index_uri: String },
    /// Write the manifest of the update.
    WriteManifest { update: ManifestUpdate },
}

impl View for CreateIndexStep {
    type V = CreateIndexStepView;

    open spec fn view(&self) -> CreateIndexStepView {
        match *self {
            CreateIndexStep::LoadManifest { index_uri } => CreateIndexStepView::LoadManifest {
                index_uri: index_uri@,
            },
            CreateIndexStep::WriteManifest { update } => CreateIndexStepView::WriteManifest {
                update: update@,
            },
        }
    }
}

/// A result with the view of the value and of the error in it.
pub open spec fn result_view<T: View, E: View>(result: Result<T, E>) -> Result<T::V, E::V> {
    match result {
        Ok(value) => Ok(value@),
        Err(error) => Err(error@),
    }
}

/// A result with the view of the optional value and of the error in it.
pub open spec fn optional_result_view<T: View, E: View>(result: Result<Option<T>, E>) -> Result<
    Option<T::V>,
    E::V,
> {
    match result {
        Ok(Some(value)) => Ok(Some(value@)),
        Ok(None) => Ok(None),
        Err(error) => Err(error@),
    }
}

/// The metadata of each of the splits.
pub open spec fn metadata_views(splits: Seq<SplitMetadata>) -> Seq<SplitMetadataView> {
    splits.map_values(|metadata: SplitMetadata| metadata@)
}

/// The metastore. Its view is the map from index URIs to manifests.
pub struct SingleFileMetastore {
    data: StringHashMap<MetadataSet>,
}

impl View for SingleFileMetastore {
    type V = Map<Seq<char>, MetadataSetView>;

    closed spec fn view(&self) -> Map<Seq<char>, MetadataSetView> {
        self.data@.map_values(|set: MetadataSet| set@)
    }
}

impl SingleFileMetastore {
    /// A metastore that knows no index yet.
    pub fn new() -> (metastore: SingleFileMetastore)
        ensures
            metastore@ == Map::<Seq<char>, MetadataSetView>::empty(),
    {
        let metastore = SingleFileMetastore { data: StringHashMap::new() };
        assert(metastore@ =~= Map::<Seq<char>, MetadataSetView>::empty());
        metastore
    }

    /// The manifest of the index, if the metastore knows it.
    pub fn index(&self, index_uri: &str) -> (metadata_set: Option<&MetadataSet>)
        ensures
            match metadata_set {
                Some(set) => self@.contains_key(index_uri@) && set@ == self@[index_uri@],
                None => !self@.contains_key(index_uri@),
            },
    {
        self.data.get(index_uri)
    }

    /// The manifest of the index, or the error that the index does not exist.
    fn known_index(&self, index_uri: &String) -> (metadata_set: Result<&MetadataSet, MetastoreError>)
        ensures
            match metadata_set {
                Ok(set) => self@.contains_key(index_uri@) && set@ == self@[index_uri@],
                Err(error) => !self@.contains_key(index_uri@)
                    && error@ == (MetastoreErrorView::IndexDoesNotExist { index_uri: index_uri@ }),
            },
    {
        match self.data.get(index_uri.as_str()) {
            Some(set) => Ok(set),
            None => Err(MetastoreError::IndexDoesNotExist { index_uri: index_uri.clone() }),
        }
    }

    /// The manifest of the index and the split in it, or the error that one does not exist.
    fn known_split(&self, index_uri: &String, split_id: &String) -> (found: Result<
        (&MetadataSet, &SplitMetadata),
        MetastoreError,
    >)
        ensures
            match found {
                Ok((set, split)) => {
                    &&& self@.contains_key(index_uri@)
                    &&& set@ == self@[index_uri@]
                    &&& model::find_split(self@, index_uri@, split_id@) == Ok::<_, MetastoreErrorView>(split@)
                },
                Err(error) => model::find_split(self@, index_uri@, split_id@)
                    == Err::<SplitMetadataView, _>(error@),
            },
    {
        match self.known_index(index_uri) {
            Err(error) => Err(error),
            Ok(set) => match set.splits.get(split_id.as_str()) {
                Some(split) => Ok((set, split)),
                None => Err(MetastoreError::DoesNotExist { split_id: split_id.clone() }),
            },
        }
    }

    /// Begins the creation of an index, given whether a manifest is stored at `index_uri` or the
    /// reason why the storage could not tell.
    pub fn create_index(index_uri: String, exists: Result<bool, String>) -> (step: Result<
        CreateIndexStep,
        MetastoreError,
    >)
        ensures
            result_view(step) == model::create_index(
                index_uri@,
                match exists {
                    Ok(exists) => Ok(exists),
                    Err(cause) => Err(cause@),
                },
            ),
    {
        match exists {
            Ok(true) => Ok(CreateIndexStep::LoadManifest { index_uri }),
            Ok(false) => {
                let update = ManifestUpdate { index_uri, metadata_set: MetadataSet::empty() };
                Ok(CreateIndexStep::WriteManifest { update })
            },
            Err(cause) => Err(
                MetastoreError::InternalError { operation: StorageOperation::Exists, cause },
            ),
        }
    }

    /// Goes on with the creation of an index whose manifest was stored already, given the
    /// manifest or the reason why it could not be had.
    pub fn load_manifest(index_uri: String, manifest: Result<MetadataSet, ManifestFailure>) -> (update:
        Result<ManifestUpdate, MetastoreError>)
        ensures
            result_view(update) == model::load_manifest(index_uri@, result_view(manifest)),
    {
        match manifest {
            Ok(metadata_set) => Ok(ManifestUpdate { index_uri, metadata_set }),
            Err(ManifestFailure::Storage { cause }) => Err(
                MetastoreError::InternalError { operation: StorageOperation::GetAll, cause },
            ),
            Err(ManifestFailure::Encoding { cause }) => Err(
                MetastoreError::InvalidManifest { cause },
            ),
        }
    }

    /// Ends an operation that changes an index, given what came of the attempt to write the
    /// manifest. The metastore changes only if the manifest was written.
    pub fn commit(&mut self, update: ManifestUpdate, written: Result<(), ManifestFailure>) -> (result:
        Result<(), MetastoreError>)
        ensures
            final(self)@ == model::committed(old(self)@, update@, result_view(written)),
            result_view(result) == model::write_result(result_view(written)),
    {
        match written {
            Ok(()) => {
                self.data.insert(update.index_uri, update.metadata_set);
                assert(self@ =~= model::updated(old(self)@, update@));
                Ok(())
            },
            Err(ManifestFailure::Storage { cause }) => Err(
                MetastoreError::InternalError { operation: StorageOperation::Put, cause },
            ),
            Err(ManifestFailure::Encoding { cause }) => Err(
                MetastoreError::InvalidManifest { cause },
            ),
        }
    }

    /// Ends the deletion of an index, given what came of the attempt to delete its manifest from
    /// the storage. The metastore forgets the index only if the manifest was deleted.
    pub fn delete_index(&mut self, index_uri: &str, deleted: Result<(), String>) -> (result: Result<
        (),
        MetastoreError,
    >)
        ensures
            final(self)@ == model::index_deleted(old(self)@, index_uri@, result_view(deleted)),
            result_view(result) == model::delete_index_result(result_view(deleted)),
    {
        match deleted {
            Ok(()) => {
                self.data.remove(index_uri);
                assert(self@ =~= old(self)@.remove(index_uri@));
                Ok(())
            },
            Err(cause) => Err(
                MetastoreError::InternalError { operation: StorageOperation::Delete, cause },
            ),
        }
    }

    /// Registers a split as staged. Yields the id of the split along with the manifest to write.
    pub fn stage_split(
        &self,
        index_uri: String,
        split_id: String,
        split_metadata: SplitMetadata,
    ) -> (staged: Result<(String, ManifestUpdate), MetastoreError>)
        ensures
            match staged {
                Ok((staged_id, update)) => {
                    &&& staged_id@ == split_id@
                    &&& model::stage_split(self@, index_uri@, split_id@, split_metadata@)
                        == Ok::<_, MetastoreErrorView>(update@)
                },
                Err(error) => model::stage_split(self@, index_uri@, split_id@, split_metadata@)
                    == Err::<ManifestUpdateView, _>(error@),
            },
    {
        let set = match self.known_index(&index_uri) {
            Ok(set) => set,
            Err(error) => {
                return Err(error);
            },
        };
        if set.splits.contains_key(split_id.as_str()) {
            return Err(MetastoreError::ExistingSplitId { split_id });
        }
        let mut metadata_set = set.clone();
        metadata_set.splits.insert(split_id.clone(), split_metadata.with_state(SplitState::Staged));
        Ok((split_id, ManifestUpdate { index_uri, metadata_set }))
    }

    /// Publishes a staged split. Yields the manifest to write, or nothing if the split is
    /// published already.
    pub fn publish_split(&self, index_uri: String, split_id: String) -> (update: Result<
        Option<ManifestUpdate>,
        MetastoreError,
    >)
        ensures
            optional_result_view(update) == model::publish_split(self@, index_uri@, split_id@),
    {
        let (set, split) = match self.known_split(&index_uri, &split_id) {
            Ok(found) => found,
            Err(error) => {
                return Err(error);
            },
        };
        match split.split_state {
            SplitState::Published => Ok(None),
            SplitState::Staged => {
                let mut metadata_set = set.clone();
                metadata_set.splits.insert(split_id, split.with_state(SplitState::Published));
                Ok(Some(ManifestUpdate { index_uri, metadata_set }))
            },
            SplitState::ScheduledForDeletion => Err(MetastoreError::SplitIsNotStaged { split_id }),
        }
    }

    /// The splits of the index that are in `state` and, where `time_range` is given, have a time
    /// range that touches it.
    pub fn list_splits(
        &self,
        index_uri: String,
        state: SplitState,
        time_range: Option<Range<u64>>,
    ) -> (splits: Result<Vec<SplitMetadata>, MetastoreError>)
        ensures
            match splits {
                Ok(splits) => {
                    &&& self@.contains_key(index_uri@)
                    &&& model::lists(
                        metadata_views(splits@),
                        self@[index_uri@].splits,
                        state,
                        time_range,
                    )
                },
                Err(error) => {
                    &&& !self@.contains_key(index_uri@)
                    &&& error@ == (MetastoreErrorView::IndexDoesNotExist { index_uri: index_uri@ })
                },
            },
    {
        let set = match self.known_index(&index_uri) {
            Ok(set) => set,
            Err(error) => {
                return Err(error);
            },
        };
        let ids = set.splits.ids();
        let ghost names = split_map::id_views(ids@);
        let ghost mut chosen: Seq<Seq<char>> = Seq::empty();
        let mut splits: Vec<SplitMetadata> = Vec::new();
        let mut i: usize = 0;
        while i < ids.len()
            invariant
                i <= ids.len(),
                names == split_map::id_views(ids@),
                split_map::enumerates(names, set.splits@),
                chosen.no_duplicates(),
                forall|id: Seq<char>| #[trigger]
                    chosen.contains(id) <==> names.take(i as int).contains(id)
                        && set.splits@[id].selected_by(state, time_range),
                metadata_views(splits@) == model::metadata_of(chosen, set.splits@),
            decreases ids.len() - i,
        {
            let ghost id = names[i as int];
            let ghost before = chosen;
            proof {
                assert(names.contains(id));
                assert(set.splits@.contains_key(id));
                assert(names.take(i + 1) =~= names.take(i as int).push(id));
                assert(!names.take(i as int).contains(id));
            }
            if let Some(metadata) = set.splits.get(ids[i].as_str()) {
                if metadata.is_selected_by(state, &time_range) {
                    let ghost listed = metadata_views(splits@);
                    splits.push(metadata.clone());
                    proof {
                        chosen = chosen.push(id);
                        assert(!before.contains(id));
                        assert(metadata_views(splits@) =~= listed.push(set.splits@[id]));
                        assert(model::metadata_of(chosen, set.splits@) =~= listed.push(set.splits@[id]));
                    }
                }
            }
            proof {
                assert forall|other: Seq<char>| #[trigger]
                    chosen.contains(other) <==> names.take(i + 1).contains(other)
                        && set.splits@[other].selected_by(state, time_range) by {
                    split_map::lemma_push_contains(names.take(i as int), id, other);
                    split_map::lemma_push_contains(before, id, other);
                    assert(before.contains(other) <==> names.take(i as int).contains(other)
                        && set.splits@[other].selected_by(state, time_range));
                }
            }
            i += 1;
        }
        proof {
            assert(names.take(names.len() as int) =~= names);
            assert(model::selects(chosen, set.splits@, state, time_range)) by {
                assert forall|id: Seq<char>| #[trigger]
                    chosen.contains(id) <==> set.splits@.contains_key(id)
                        && set.splits@[id].selected_by(state, time_range) by {
                    assert(set.splits@.contains_key(id) <==> names.contains(id));
                }
            }
        }
        Ok(splits)
    }

    /// Schedules a split for deletion. Yields the manifest to write, or nothing if the split is
    /// scheduled already.
    pub fn mark_split_as_deleted(&self, index_uri: String, split_id: String) -> (update: Result<
        Option<ManifestUpdate>,
        MetastoreError,
    >)
        ensures
            optional_result_view(update) == model::mark_split_as_deleted(self@, index_uri@, split_id@),
    {
        let (set, split) = match self.known_split(&index_uri, &split_id) {
            Ok(found) => found,
            Err(error) => {
                return Err(error);
            },
        };
        match split.split_state {
            SplitState::ScheduledForDeletion => Ok(None),
            _ => {
                let mut metadata_set = set.clone();
                metadata_set.splits.insert(
                    split_id,
                    split.with_state(SplitState::ScheduledForDeletion),
                );
                Ok(Some(ManifestUpdate { index_uri, metadata_set }))
            },
        }
    }

    /// Deletes a split that is staged or scheduled for deletion. Yields the manifest to write.
    pub fn delete_split(&self, index_uri: String, split_id: String) -> (update: Result<
        ManifestUpdate,
        MetastoreError,
    >)
        ensures
            result_view(update) == model::delete_split(self@, index_uri@, split_id@),
    {
        let (set, split) = match self.known_split(&index_uri, &split_id) {
            Ok(found) => found,
            Err(error) => {
                return Err(error);
            },
        };
        match split.split_state {
            SplitState::ScheduledForDeletion | SplitState::Staged => {
                let mut metadata_set = set.clone();
                metadata_set.splits.remove(split_id.as_str());
                Ok(ManifestUpdate { index_uri, metadata_set })
            },
            SplitState::Published => Err(
                MetastoreError::Forbidden { split_id, split_state: split.split_state },
            ),
        }
    }
}

} // verus!
