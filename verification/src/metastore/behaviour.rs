//! What a caller of the metastore can rely on, call by call: each law is about what a call returns
//! for what it was given.

use crate::metastore::error::{MetastoreError, MetastoreErrorKind, StorageOperation};
use crate::metastore::manifest::{MetadataSet, MetadataSetView};
use crate::metastore::model;
use crate::metastore::single_file;
use crate::metastore::single_file::{
    CreateIndexStep, ManifestFailure, ManifestUpdate, SingleFileMetastore,
};
use crate::metastore::split::{SplitMetadata, SplitMetadataView, SplitState};
use crate::metastore::split_map;
use crate::metastore::split_map::SplitMap;
use std::ops::Range;
use vstd::prelude::*;

verus! {

/// Whether the two say the same of a split, but for its state.
pub open spec fn same_but_for_state(a: SplitMetadataView, b: SplitMetadataView) -> bool {
    &&& a.split_id == b.split_id
    &&& a.num_records == b.num_records
    &&& a.size_in_bytes == b.size_in_bytes
    &&& a.time_range == b.time_range
    &&& a.generation == b.generation
}

/// Whether the two manifests agree on everything but the split `split_id`.
pub open spec fn same_but_for_split(
    a: MetadataSetView,
    b: MetadataSetView,
    split_id: Seq<char>,
) -> bool {
    &&& a.version == b.version
    &&& forall|other: Seq<char>| #![trigger a.splits.contains_key(other)]
        #![trigger b.splits.contains_key(other)]
        other != split_id ==> {
            &&& a.splits.contains_key(other) == b.splits.contains_key(other)
            &&& a.splits.contains_key(other) ==> a.splits[other] == b.splits[other]
        }
}

/// Whether the update moves the split `split_id` of the index to `state`, and does nothing else.
pub open spec fn moves_split(
    update: ManifestUpdate,
    metastore: SingleFileMetastore,
    index_uri: Seq<char>,
    split_id: Seq<char>,
    state: SplitState,
) -> bool {
    let before = metastore@[index_uri];
    let after = update@.metadata_set;
    &&& update@.index_uri == index_uri
    &&& same_but_for_split(before, after, split_id)
    &&& after.splits.contains_key(split_id)
    &&& after.splits[split_id].split_state == state
    &&& same_but_for_state(after.splits[split_id], before.splits[split_id])
}

/// Whether the error says that the index is not there, or that the index has no such split; and
/// one of the two is the case.
pub open spec fn reports_absence(
    error: MetastoreError,
    metastore: SingleFileMetastore,
    index_uri: Seq<char>,
    split_id: Seq<char>,
) -> bool {
    if !metastore@.contains_key(index_uri) {
        error matches MetastoreError::IndexDoesNotExist { index_uri: missing } && missing@ == index_uri
    } else {
        &&& !metastore@[index_uri].splits.contains_key(split_id)
        &&& error matches MetastoreError::DoesNotExist { split_id: missing }
        &&& missing@ == split_id
    }
}

/// Whether the metastore knows the index and the index has the split.
pub open spec fn has_split(
    metastore: SingleFileMetastore,
    index_uri: Seq<char>,
    split_id: Seq<char>,
) -> bool {
    metastore@.contains_key(index_uri) && metastore@[index_uri].splits.contains_key(split_id)
}

/// Whether a search over the times `filter` has to look at records with the times `own`. Of two
/// ranges that are not empty each begins before or where the other ends; an empty range counts by
/// its bounds.
pub open spec fn meets(own: Option<Range<u64>>, filter: Option<Range<u64>>) -> bool {
    match filter {
        None => true,
        Some(f) => match own {
            None => false,
            Some(o) => if o.start < o.end && f.start < f.end {
                o.start <= f.end && f.start <= o.end
            } else if o.start < o.end {
                o.start <= f.start < o.end || o.start <= f.end < o.end
            } else if f.start < f.end {
                f.start <= o.start < f.end || f.start <= o.end < f.end
            } else {
                false
            },
        },
    }
}

/// Staging succeeds exactly if the metastore knows the index and the index has no split under the
/// id, however many splits it has. The split is then there under the id, as staged and otherwise
/// as given, and nothing else changes.
pub proof fn law_stage_split(
    metastore: SingleFileMetastore,
    index_uri: String,
    split_id: String,
    split: SplitMetadata,
    result: Result<(String, ManifestUpdate), MetastoreError>,
)
    requires
        call_ensures(
            SingleFileMetastore::stage_split,
            (&metastore, index_uri, split_id, split),
            result,
        ),
    ensures
        result is Ok <==> metastore@.contains_key(index_uri@)
            && !metastore@[index_uri@].splits.contains_key(split_id@),
        result matches Ok((staged_id, update)) ==> {
            let after = update@.metadata_set;
            &&& staged_id@ == split_id@
            &&& update@.index_uri == index_uri@
            &&& same_but_for_split(metastore@[index_uri@], after, split_id@)
            &&& after.splits.contains_key(split_id@)
            &&& after.splits[split_id@].split_state == SplitState::Staged
            &&& same_but_for_state(after.splits[split_id@], split@)
        },
        result matches Err(error) ==> if metastore@.contains_key(index_uri@) {
            error matches MetastoreError::ExistingSplitId { split_id: taken } && taken@ == split_id@
        } else {
            error matches MetastoreError::IndexDoesNotExist { index_uri: missing } && missing@
                == index_uri@
        },
{
}

/// A split that is staged can be published, whatever else is known of it; a published split is
/// left as it is, with nothing to write; only a split that is scheduled for deletion is refused.
pub proof fn law_publish_split(
    metastore: SingleFileMetastore,
    index_uri: String,
    split_id: String,
    result: Result<Option<ManifestUpdate>, MetastoreError>,
)
    requires
        call_ensures(SingleFileMetastore::publish_split, (&metastore, index_uri, split_id), result),
    ensures
        !has_split(metastore, index_uri@, split_id@) ==> (result matches Err(error) && reports_absence(
            error,
            metastore,
            index_uri@,
            split_id@,
        )),
        has_split(metastore, index_uri@, split_id@) ==> {
            let state = metastore@[index_uri@].splits[split_id@].split_state;
            &&& state == SplitState::Staged ==> (result matches Ok(Some(update)) && moves_split(
                update,
                metastore,
                index_uri@,
                split_id@,
                SplitState::Published,
            ))
            &&& state == SplitState::Published ==> result == Ok::<_, MetastoreError>(
                None::<ManifestUpdate>,
            )
            &&& state == SplitState::ScheduledForDeletion ==> (result matches Err(
                MetastoreError::SplitIsNotStaged { split_id: refused },
            ) && refused@ == split_id@)
        },
{
}

/// Every split can be scheduled for deletion; one that is already is left as it is, with nothing
/// to write.
pub proof fn law_mark_split_as_deleted(
    metastore: SingleFileMetastore,
    index_uri: String,
    split_id: String,
    result: Result<Option<ManifestUpdate>, MetastoreError>,
)
    requires
        call_ensures(
            SingleFileMetastore::mark_split_as_deleted,
            (&metastore, index_uri, split_id),
            result,
        ),
    ensures
        !has_split(metastore, index_uri@, split_id@) ==> (result matches Err(error) && reports_absence(
            error,
            metastore,
            index_uri@,
            split_id@,
        )),
        has_split(metastore, index_uri@, split_id@) ==> {
            let state = metastore@[index_uri@].splits[split_id@].split_state;
            &&& state == SplitState::ScheduledForDeletion ==> result == Ok::<_, MetastoreError>(
                None::<ManifestUpdate>,
            )
            &&& state != SplitState::ScheduledForDeletion ==> (result matches Ok(Some(update))
                && moves_split(
                update,
                metastore,
                index_uri@,
                split_id@,
                SplitState::ScheduledForDeletion,
            ))
        },
{
}

/// Every split can be deleted but a published one. A deleted split is gone, and nothing else
/// changes.
pub proof fn law_delete_split(
    metastore: SingleFileMetastore,
    index_uri: String,
    split_id: String,
    result: Result<ManifestUpdate, MetastoreError>,
)
    requires
        call_ensures(SingleFileMetastore::delete_split, (&metastore, index_uri, split_id), result),
    ensures
        !has_split(metastore, index_uri@, split_id@) ==> (result matches Err(error) && reports_absence(
            error,
            metastore,
            index_uri@,
            split_id@,
        )),
        has_split(metastore, index_uri@, split_id@) ==> {
            let state = metastore@[index_uri@].splits[split_id@].split_state;
            &&& state == SplitState::Published ==> (result matches Err(
                MetastoreError::Forbidden { split_id: refused, split_state },
            ) && refused@ == split_id@ && split_state == SplitState::Published)
            &&& state != SplitState::Published ==> {
                &&& result matches Ok(update)
                &&& update@.index_uri == index_uri@
                &&& same_but_for_split(metastore@[index_uri@], update@.metadata_set, split_id@)
                &&& !update@.metadata_set.splits.contains_key(split_id@)
            }
        },
{
}

/// A listing of an index that the metastore knows holds the metadata of each split once that is in
/// the state and whose times meet the times searched, and of no other, whatever the state is.
pub proof fn law_list_splits(
    metastore: SingleFileMetastore,
    index_uri: String,
    state: SplitState,
    time_range: Option<Range<u64>>,
    result: Result<Vec<SplitMetadata>, MetastoreError>,
)
    requires
        call_ensures(
            SingleFileMetastore::list_splits,
            (&metastore, index_uri, state, time_range),
            result,
        ),
    ensures
        result is Ok <==> metastore@.contains_key(index_uri@),
        result matches Err(error) ==> (error matches MetastoreError::IndexDoesNotExist {
            index_uri: missing,
        } && missing@ == index_uri@),
        result matches Ok(listing) ==> {
            let splits = metastore@[index_uri@].splits;
            exists|ids: Seq<Seq<char>>|
                {
                    &&& #[trigger] ids.no_duplicates()
                    &&& ids.len() == listing@.len()
                    &&& forall|i: int|
                        0 <= i < listing@.len() ==> (#[trigger] listing@[i])@ == splits[ids[i]]
                    &&& forall|id: Seq<char>| #[trigger]
                        ids.contains(id) <==> {
                            &&& splits.contains_key(id)
                            &&& splits[id].split_state == state
                            &&& meets(splits[id].time_range, time_range)
                        }
                }
        },
{
    if let Ok(listing) = result {
        let splits = metastore@[index_uri@].splits;
        let views = single_file::metadata_views(listing@);
        let ids = choose|ids: Seq<Seq<char>>| #[trigger]
            model::selects(ids, splits, state, time_range) && views == model::metadata_of(ids, splits);
        assert(ids.no_duplicates());
        assert(views.len() == ids.len());
        assert forall|i: int| 0 <= i < listing@.len() implies (#[trigger] listing@[i])@
            == splits[ids[i]] by {
            assert(views[i] == listing@[i]@);
        }
    }
}

/// A split is selected exactly if it is in the state searched, whichever that is, and its times
/// meet the times searched.
pub proof fn law_is_selected_by(
    split: SplitMetadata,
    state: SplitState,
    time_range: Option<Range<u64>>,
    selected: bool,
)
    requires
        call_ensures(SplitMetadata::is_selected_by, (&split, state, &time_range), selected),
    ensures
        selected <==> split.split_state == state && meets(split.time_range, time_range),
{
}

/// A search over more times finds all that a search over fewer times finds.
pub proof fn law_wider_search_finds_more(
    split: SplitMetadata,
    state: SplitState,
    narrow: Range<u64>,
    wide: Range<u64>,
    by_narrow: bool,
    by_wide: bool,
)
    requires
        wide.start <= narrow.start < narrow.end <= wide.end,
        call_ensures(SplitMetadata::is_selected_by, (&split, state, &Some(narrow)), by_narrow),
        call_ensures(SplitMetadata::is_selected_by, (&split, state, &Some(wide)), by_wide),
    ensures
        by_narrow ==> by_wide,
{
}

/// A new metastore knows no index.
pub proof fn law_new_metastore_is_empty(metastore: SingleFileMetastore, index_uri: Seq<char>)
    requires
        call_ensures(SingleFileMetastore::new, (), metastore),
    ensures
        !metastore@.contains_key(index_uri),
{
}

/// A look at an index gives its manifest exactly if the metastore knows it.
pub proof fn law_index(
    metastore: SingleFileMetastore,
    index_uri: &str,
    result: Option<&MetadataSet>,
)
    requires
        call_ensures(SingleFileMetastore::index, (&metastore, index_uri), result),
    ensures
        result is Some <==> metastore@.contains_key(index_uri@),
        result matches Some(set) ==> set@ == metastore@[index_uri@],
{
}

/// An index starts without splits, in the current version, where no manifest is stored; a stored
/// manifest is read. If the storage cannot tell, its error is passed on.
pub proof fn law_create_index(
    index_uri: String,
    exists: Result<bool, String>,
    result: Result<CreateIndexStep, MetastoreError>,
)
    requires
        call_ensures(SingleFileMetastore::create_index, (index_uri, exists), result),
    ensures
        exists == Ok::<bool, String>(true) ==> (result matches Ok(
            CreateIndexStep::LoadManifest { index_uri: stored_at },
        ) && stored_at@ == index_uri@),
        exists == Ok::<bool, String>(false) ==> {
            &&& result matches Ok(CreateIndexStep::WriteManifest { update })
            &&& update@.index_uri == index_uri@
            &&& update@.metadata_set.version == "0"@
            &&& forall|id: Seq<char>| !(#[trigger] update@.metadata_set.splits.contains_key(id))
        },
        exists matches Err(cause) ==> (result matches Err(
            MetastoreError::InternalError { operation, cause: passed_on },
        ) && operation == StorageOperation::Exists && passed_on@ == cause@),
{
}

/// A manifest that was read is taken over as it is; a failure to read it is passed on.
pub proof fn law_load_manifest(
    index_uri: String,
    manifest: Result<MetadataSet, ManifestFailure>,
    result: Result<ManifestUpdate, MetastoreError>,
)
    requires
        call_ensures(SingleFileMetastore::load_manifest, (index_uri, manifest), result),
    ensures
        match manifest {
            Ok(set) => {
                &&& result matches Ok(update)
                &&& update@.index_uri == index_uri@
                &&& update@.metadata_set.version == set.index.version@
                &&& update@.metadata_set.splits == set.splits@
            },
            Err(ManifestFailure::Storage { cause }) => {
                &&& result matches Err(MetastoreError::InternalError { operation, cause: passed_on })
                &&& operation == StorageOperation::GetAll
                &&& passed_on@ == cause@
            },
            Err(ManifestFailure::Encoding { cause }) => {
                &&& result matches Err(MetastoreError::InvalidManifest { cause: passed_on })
                &&& passed_on@ == cause@
            },
        },
{
}

/// An update whose manifest was written is in force, for its index alone. One whose manifest was
/// not written changes nothing, and the failure is passed on.
pub proof fn law_commit(
    metastore: &mut SingleFileMetastore,
    update: ManifestUpdate,
    written: Result<(), ManifestFailure>,
    result: Result<(), MetastoreError>,
)
    requires
        call_ensures(SingleFileMetastore::commit, (metastore, update, written), result),
    ensures
        result is Ok <==> written is Ok,
        written is Err ==> final(metastore)@ == old(metastore)@,
        written is Ok ==> {
            let before = old(metastore)@;
            let after = final(metastore)@;
            &&& after.contains_key(update@.index_uri)
            &&& after[update@.index_uri] == update@.metadata_set
            &&& forall|other: Seq<char>| #[trigger]
                after.contains_key(other) && other != update@.index_uri ==> {
                    &&& before.contains_key(other)
                    &&& before[other] == after[other]
                }
            &&& forall|other: Seq<char>| #[trigger]
                before.contains_key(other) ==> after.contains_key(other)
        },
        written matches Err(ManifestFailure::Storage { cause }) ==> (result matches Err(
            MetastoreError::InternalError { operation, cause: passed_on },
        ) && operation == StorageOperation::Put && passed_on@ == cause@),
        written matches Err(ManifestFailure::Encoding { cause }) ==> (result matches Err(
            MetastoreError::InvalidManifest { cause: passed_on },
        ) && passed_on@ == cause@),
{
}

/// An index whose manifest was deleted is forgotten, and no other. If the manifest was not
/// deleted nothing changes, and the failure is passed on.
pub proof fn law_delete_index(
    metastore: &mut SingleFileMetastore,
    index_uri: &str,
    deleted: Result<(), String>,
    result: Result<(), MetastoreError>,
)
    requires
        call_ensures(SingleFileMetastore::delete_index, (metastore, index_uri, deleted), result),
    ensures
        result is Ok <==> deleted is Ok,
        deleted is Err ==> final(metastore)@ == old(metastore)@,
        deleted is Ok ==> {
            let before = old(metastore)@;
            let after = final(metastore)@;
            &&& !after.contains_key(index_uri@)
            &&& forall|other: Seq<char>| #[trigger]
                before.contains_key(other) && other != index_uri@ ==> {
                    &&& after.contains_key(other)
                    &&& after[other] == before[other]
                }
            &&& forall|other: Seq<char>| #[trigger]
                after.contains_key(other) ==> before.contains_key(other)
        },
        deleted matches Err(cause) ==> (result matches Err(
            MetastoreError::InternalError { operation, cause: passed_on },
        ) && operation == StorageOperation::Delete && passed_on@ == cause@),
{
}

/// A split that is staged and committed can be published; once that is committed, a listing of the
/// published splits over any times that meet its own holds it.
pub proof fn law_staged_split_can_be_published_and_found(
    metastore: SingleFileMetastore,
    index_uri: String,
    split_id: String,
    split: SplitMetadata,
    staged: Result<(String, ManifestUpdate), MetastoreError>,
    with_staged: SingleFileMetastore,
    published: Result<Option<ManifestUpdate>, MetastoreError>,
    with_published: SingleFileMetastore,
    time_range: Option<Range<u64>>,
    listed: Result<Vec<SplitMetadata>, MetastoreError>,
)
    requires
        metastore@.contains_key(index_uri@),
        !metastore@[index_uri@].splits.contains_key(split_id@),
        call_ensures(
            SingleFileMetastore::stage_split,
            (&metastore, index_uri, split_id, split),
            staged,
        ),
        staged matches Ok((_, update)) ==> with_staged@ == metastore@.insert(
            update@.index_uri,
            update@.metadata_set,
        ),
        call_ensures(
            SingleFileMetastore::publish_split,
            (&with_staged, index_uri, split_id),
            published,
        ),
        published matches Ok(Some(update)) ==> with_published@ == with_staged@.insert(
            update@.index_uri,
            update@.metadata_set,
        ),
        call_ensures(
            SingleFileMetastore::list_splits,
            (&with_published, index_uri, SplitState::Published, time_range),
            listed,
        ),
        meets(split.time_range, time_range),
    ensures
        staged is Ok,
        published matches Ok(Some(_)),
        listed matches Ok(listing) && exists|i: int|
            0 <= i < listing@.len() && (#[trigger] listing@[i])@.split_state == SplitState::Published
                && same_but_for_state(listing@[i]@, split@),
{
    law_stage_split(metastore, index_uri, split_id, split, staged);
    law_publish_split(with_staged, index_uri, split_id, published);
    law_list_splits(with_published, index_uri, SplitState::Published, time_range, listed);
    let splits = with_published@[index_uri@].splits;
    let listing = listed->Ok_0;
    let ids = choose|ids: Seq<Seq<char>>|
        {
            &&& #[trigger] ids.no_duplicates()
            &&& ids.len() == listing@.len()
            &&& forall|i: int|
                0 <= i < listing@.len() ==> (#[trigger] listing@[i])@ == splits[ids[i]]
            &&& forall|id: Seq<char>| #[trigger]
                ids.contains(id) <==> {
                    &&& splits.contains_key(id)
                    &&& splits[id].split_state == SplitState::Published
                    &&& meets(splits[id].time_range, time_range)
                }
        };
    assert(ids.contains(split_id@));
    let i = choose|i: int| 0 <= i < ids.len() && ids[i] == split_id@;
    assert(listing@[i]@ == splits[split_id@]);
}

/// A copy of the metadata in another state says the same otherwise.
pub proof fn law_with_state(split: SplitMetadata, state: SplitState, copy: SplitMetadata)
    requires
        call_ensures(SplitMetadata::with_state, (&split, state), copy),
    ensures
        copy.split_state == state,
        copy.split_id@ == split.split_id@,
        copy.num_records == split.num_records,
        copy.size_in_bytes == split.size_in_bytes,
        copy.time_range == split.time_range,
        copy.generation == split.generation,
{
}

/// A copy of a split, or of a manifest, says the same.
pub proof fn law_copies_are_equal(
    split: SplitMetadata,
    split_copy: SplitMetadata,
    set: MetadataSet,
    set_copy: MetadataSet,
)
    requires
        call_ensures(SplitMetadata::clone, (&split,), split_copy),
        call_ensures(MetadataSet::clone, (&set,), set_copy),
    ensures
        split_copy.split_id@ == split.split_id@,
        split_copy.split_state == split.split_state,
        split_copy.num_records == split.num_records,
        split_copy.size_in_bytes == split.size_in_bytes,
        split_copy.time_range == split.time_range,
        split_copy.generation == split.generation,
        set_copy.index.version@ == set.index.version@,
        set_copy.splits@ == set.splits@,
{
}

/// What the operations are stated about leaves nothing of a split or of a manifest out: two
/// that count as the same are the same, field by field.
pub proof fn law_nothing_is_left_out(
    a: SplitMetadata,
    b: SplitMetadata,
    first: MetadataSet,
    second: MetadataSet,
)
    ensures
        a@ == b@ <==> {
            &&& a.split_id@ == b.split_id@
            &&& a.split_state == b.split_state
            &&& a.num_records == b.num_records
            &&& a.size_in_bytes == b.size_in_bytes
            &&& a.time_range == b.time_range
            &&& a.generation == b.generation
        },
        a@.split_state == a.split_state,
        a@.time_range == a.time_range,
        first@ == second@ <==> first.index.version@ == second.index.version@ && first.splits@
            == second.splits@,
{
}

/// Each error is of the kind that bears its name.
pub proof fn law_kind(error: MetastoreError, kind: MetastoreErrorKind)
    requires
        call_ensures(MetastoreError::kind, (&error,), kind),
    ensures
        error is IndexDoesNotExist <==> kind == MetastoreErrorKind::IndexDoesNotExist,
        error is ExistingSplitId <==> kind == MetastoreErrorKind::ExistingSplitId,
        error is DoesNotExist <==> kind == MetastoreErrorKind::DoesNotExist,
        error is SplitIsNotStaged <==> kind == MetastoreErrorKind::SplitIsNotStaged,
        error is Forbidden <==> kind == MetastoreErrorKind::Forbidden,
        error is InvalidManifest <==> kind == MetastoreErrorKind::InvalidManifest,
        error is InternalError <==> kind == MetastoreErrorKind::InternalError,
{
}

/// The manifest of a new index is in the current version and has no splits.
pub proof fn law_empty_manifest(set: MetadataSet, split_id: Seq<char>)
    requires
        call_ensures(MetadataSet::empty, (), set),
    ensures
        set.index.version@ == "0"@,
        !set.splits@.contains_key(split_id),
{
}

/// A split is found under the id that it was registered under last, until it is removed; the other
/// splits stay as they are.
pub proof fn law_split_map_is_a_map(
    map: &mut SplitMap,
    split_id: String,
    split: SplitMetadata,
    other: &mut SplitMap,
    removed: &str,
    inserted: (),
    gone: (),
)
    requires
        call_ensures(SplitMap::insert, (map, split_id, split), inserted),
        call_ensures(SplitMap::remove, (other, removed), gone),
    ensures
        final(map)@.contains_key(split_id@),
        final(map)@[split_id@] == split@,
        forall|id: Seq<char>| #[trigger]
            final(map)@.contains_key(id) && id != split_id@ ==> old(map)@.contains_key(id)
                && old(map)@[id] == final(map)@[id],
        forall|id: Seq<char>| #[trigger]
            old(map)@.contains_key(id) ==> final(map)@.contains_key(id),
        !final(other)@.contains_key(removed@),
        forall|id: Seq<char>| #[trigger]
            old(other)@.contains_key(id) && id != removed@ ==> final(other)@.contains_key(id)
                && final(other)@[id] == old(other)@[id],
        forall|id: Seq<char>| #[trigger]
            final(other)@.contains_key(id) ==> old(other)@.contains_key(id),
{
}

/// The questions that a map of splits answers are answered alike: a split is there exactly if it
/// is found and exactly if its id is listed.
pub proof fn law_split_map_answers_agree(
    map: SplitMap,
    split_id: &str,
    contained: bool,
    found: Option<&SplitMetadata>,
    ids: &Vec<String>,
    len: usize,
)
    requires
        call_ensures(SplitMap::contains_key, (&map, split_id), contained),
        call_ensures(SplitMap::get, (&map, split_id), found),
        call_ensures(SplitMap::ids, (&map,), ids),
        call_ensures(SplitMap::len, (&map,), len),
    ensures
        contained == map@.contains_key(split_id@),
        contained <==> found is Some,
        found matches Some(split) ==> split@ == map@[split_id@],
        contained <==> exists|i: int| 0 <= i < ids@.len() && (#[trigger] ids@[i])@ == split_id@,
        forall|i: int, j: int| 0 <= i < j < ids@.len() ==> (#[trigger] ids@[i])@ != (#[trigger] ids@[j])@,
        len == ids@.len(),
{
    let names = split_map::id_views(ids@);
    assert forall|i: int| 0 <= i < ids@.len() implies (#[trigger] ids@[i])@ == names[i] by {}
    if names.contains(split_id@) {
        let i = choose|i: int| 0 <= i < names.len() && names[i] == split_id@;
        assert(ids@[i]@ == split_id@);
    }
    assert(map@.contains_key(split_id@) <==> names.contains(split_id@));
    if exists|i: int| 0 <= i < ids@.len() && (#[trigger] ids@[i])@ == split_id@ {
        let i = choose|i: int| 0 <= i < ids@.len() && (#[trigger] ids@[i])@ == split_id@;
        assert(names[i] == split_id@);
    }
    names.unique_seq_to_set();
    assert(names.to_set() =~= map@.dom()) by {
        assert forall|id: Seq<char>| names.to_set().contains(id) <==> map@.dom().contains(id) by {
            assert(map@.contains_key(id) <==> names.contains(id));
        }
    }
}

/// What is to be written is what the update holds, and goes to the index that it is about.
pub proof fn law_update_tells_what_to_write(
    update: ManifestUpdate,
    index_uri: &String,
    set: &MetadataSet,
)
    requires
        call_ensures(ManifestUpdate::index_uri, (&update,), index_uri),
        call_ensures(ManifestUpdate::metadata_set, (&update,), set),
    ensures
        index_uri@ == update@.index_uri,
        set.index.version@ == update@.metadata_set.version,
        set.splits@ == update@.metadata_set.splits,
{
}

} // verus!
