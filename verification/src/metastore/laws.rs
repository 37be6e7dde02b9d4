//! What holds of the metastore as a whole.

use crate::metastore::error::{MetastoreErrorKind, MetastoreErrorView};
use crate::metastore::manifest::MetadataSetView;
use crate::metastore::model;
use crate::metastore::model::{CreateIndexStepView, ManifestFailureView, ManifestUpdateView};
use crate::metastore::split;
use crate::metastore::split::{SplitMetadataView, SplitState};
use std::ops::Range;
use vstd::prelude::*;

verus! {

/// The indexes after an operation that may have found nothing to write, once what it had to
/// write is written.
pub open spec fn after(
    store: Map<Seq<char>, MetadataSetView>,
    update: Option<ManifestUpdateView>,
) -> Map<Seq<char>, MetadataSetView> {
    match update {
        Some(update) => model::updated(store, update),
        None => store,
    }
}

/// How far a split has come in its life.
pub open spec fn age(state: SplitState) -> nat {
    match state {
        SplitState::Staged => 0,
        SplitState::Published => 1,
        SplitState::ScheduledForDeletion => 2,
    }
}

/// Every index that the metastore knows has its manifest in the storage, as the metastore has it.
pub open spec fn mirrors(
    store: Map<Seq<char>, MetadataSetView>,
    storage: Map<Seq<char>, MetadataSetView>,
) -> bool {
    forall|uri: Seq<char>| #[trigger]
        store.contains_key(uri) ==> storage.contains_key(uri) && storage[uri] == store[uri]
}

/// The manifests of a storage after an attempt to write one; a failed attempt writes nothing.
pub open spec fn storage_after_write(
    storage: Map<Seq<char>, MetadataSetView>,
    update: ManifestUpdateView,
    written: Result<(), ManifestFailureView>,
) -> Map<Seq<char>, MetadataSetView> {
    if written is Ok {
        storage.insert(update.index_uri, update.metadata_set)
    } else {
        storage
    }
}

/// The manifests of a storage after an attempt to delete one; a failed attempt deletes nothing.
pub open spec fn storage_after_delete(
    storage: Map<Seq<char>, MetadataSetView>,
    index_uri: Seq<char>,
    deleted: Result<(), Seq<char>>,
) -> Map<Seq<char>, MetadataSetView> {
    if deleted is Ok {
        storage.remove(index_uri)
    } else {
        storage
    }
}

/// The metastore does not change its state if the storage fails, be it to write a manifest or to
/// delete one, and the caller is told that the storage failed.
pub proof fn law_storage_failure_keeps_state(
    store: Map<Seq<char>, MetadataSetView>,
    update: ManifestUpdateView,
    index_uri: Seq<char>,
    cause: Seq<char>,
)
    ensures
        model::committed(store, update, Err(ManifestFailureView::Storage { cause })) == store,
        model::write_result(Err(ManifestFailureView::Storage { cause })) matches Err(error)
            && error.kind() == MetastoreErrorKind::InternalError,
        model::index_deleted(store, index_uri, Err(cause)) == store,
        model::delete_index_result(Err(cause)) matches Err(error)
            && error.kind() == MetastoreErrorKind::InternalError,
{
}

/// A metastore that starts out as a mirror of its storage stays one, whatever is written and
/// deleted and whether or not the storage fails.
pub proof fn law_metastore_mirrors_storage(
    store: Map<Seq<char>, MetadataSetView>,
    storage: Map<Seq<char>, MetadataSetView>,
    update: ManifestUpdateView,
    written: Result<(), ManifestFailureView>,
    index_uri: Seq<char>,
    deleted: Result<(), Seq<char>>,
)
    requires
        mirrors(store, storage),
    ensures
        mirrors(
            model::committed(store, update, written),
            storage_after_write(storage, update, written),
        ),
        mirrors(
            model::index_deleted(store, index_uri, deleted),
            storage_after_delete(storage, index_uri, deleted),
        ),
{
}

/// A new metastore mirrors any storage.
pub proof fn law_new_metastore_mirrors_storage(storage: Map<Seq<char>, MetadataSetView>)
    ensures
        mirrors(Map::empty(), storage),
{
}

/// An index that is created where no manifest is stored is known from then on, without splits;
/// the other indexes are as before.
pub proof fn law_created_index_is_empty(
    store: Map<Seq<char>, MetadataSetView>,
    index_uri: Seq<char>,
)
    ensures
        model::create_index(index_uri, Ok(false)) matches Ok(
            CreateIndexStepView::WriteManifest { update },
        ) && {
            let created = model::committed(store, update, Ok(()));
            &&& created.contains_key(index_uri)
            &&& created[index_uri].splits == Map::<Seq<char>, SplitMetadataView>::empty()
            &&& created.remove(index_uri) == store.remove(index_uri)
        },
{
    let update = ManifestUpdateView { index_uri, metadata_set: MetadataSetView::empty() };
    assert(model::updated(store, update).remove(index_uri) =~= store.remove(index_uri));
}

/// What a metastore wrote, the next metastore over the same storage reads back: creating the
/// index again, from its stored manifest, yields the manifest that was written, splits included.
pub proof fn law_index_is_read_back(
    store: Map<Seq<char>, MetadataSetView>,
    update: ManifestUpdateView,
    storage: Map<Seq<char>, MetadataSetView>,
)
    ensures
        ({
            let uri = update.index_uri;
            let stored = storage_after_write(storage, update, Ok(()));
            &&& model::create_index(uri, Ok(stored.contains_key(uri)))
                == Ok::<_, MetastoreErrorView>(CreateIndexStepView::LoadManifest { index_uri: uri })
            &&& model::load_manifest(uri, Ok(stored[uri])) matches Ok(reload)
            &&& model::committed(store, reload, Ok(()))[uri] == update.metadata_set
            &&& model::committed(store, reload, Ok(())) == model::committed(store, update, Ok(()))
        }),
{
}

/// A deleted index is not known any more; the other indexes are as before, and deleting it again
/// changes nothing.
pub proof fn law_deleted_index_is_unknown(
    store: Map<Seq<char>, MetadataSetView>,
    index_uri: Seq<char>,
)
    ensures
        ({
            let left = model::index_deleted(store, index_uri, Ok(()));
            &&& !left.contains_key(index_uri)
            &&& forall|other: Seq<char>| #![trigger left.contains_key(other)] other != index_uri ==> {
                &&& left.contains_key(other) == store.contains_key(other)
                &&& store.contains_key(other) ==> left[other] == store[other]
            }
            &&& model::index_deleted(left, index_uri, Ok(())) == left
        }),
{
    let left = store.remove(index_uri);
    assert(left.remove(index_uri) =~= left);
}

/// An index that the metastore does not know has no splits to act on: each operation on its
/// splits is answered with the error that the index does not exist.
pub proof fn law_unknown_index_is_refused(
    store: Map<Seq<char>, MetadataSetView>,
    index_uri: Seq<char>,
    split_id: Seq<char>,
    split: SplitMetadataView,
)
    requires
        !store.contains_key(index_uri),
    ensures
        ({
            let error = MetastoreErrorView::IndexDoesNotExist { index_uri };
            &&& model::stage_split(store, index_uri, split_id, split) == Err::<ManifestUpdateView, _>(error)
            &&& model::publish_split(store, index_uri, split_id) == Err::<Option<ManifestUpdateView>, _>(error)
            &&& model::mark_split_as_deleted(store, index_uri, split_id)
                == Err::<Option<ManifestUpdateView>, _>(error)
            &&& model::delete_split(store, index_uri, split_id) == Err::<ManifestUpdateView, _>(error)
        }),
{
}

/// A split that was staged is there, as staged, and the same id cannot be staged again.
pub proof fn law_staged_split_is_kept(
    store: Map<Seq<char>, MetadataSetView>,
    index_uri: Seq<char>,
    split_id: Seq<char>,
    split: SplitMetadataView,
    second: SplitMetadataView,
)
    requires
        model::stage_split(store, index_uri, split_id, split) is Ok,
    ensures
        ({
            let staged = model::updated(store, model::stage_split(store, index_uri, split_id, split)->Ok_0);
            &&& model::find_split(staged, index_uri, split_id)
                == Ok::<_, MetastoreErrorView>(split.in_state(SplitState::Staged))
            &&& model::stage_split(staged, index_uri, split_id, second)
                == Err::<ManifestUpdateView, _>(MetastoreErrorView::ExistingSplitId { split_id })
        }),
{
}

/// Publishing a split is idempotent: the second time there is nothing to write, and it succeeds.
pub proof fn law_publishing_is_idempotent(
    store: Map<Seq<char>, MetadataSetView>,
    index_uri: Seq<char>,
    split_id: Seq<char>,
)
    requires
        model::publish_split(store, index_uri, split_id) is Ok,
    ensures
        ({
            let published = after(store, model::publish_split(store, index_uri, split_id)->Ok_0);
            &&& model::find_split(published, index_uri, split_id) matches Ok(split)
            &&& split.split_state == SplitState::Published
            &&& model::publish_split(published, index_uri, split_id)
                == Ok::<Option<ManifestUpdateView>, MetastoreErrorView>(None)
        }),
{
}

/// Scheduling a split for deletion is idempotent, and it succeeds for every split there is.
pub proof fn law_scheduling_deletion_is_idempotent(
    store: Map<Seq<char>, MetadataSetView>,
    index_uri: Seq<char>,
    split_id: Seq<char>,
)
    requires
        model::find_split(store, index_uri, split_id) is Ok,
    ensures
        ({
            let scheduled = after(store, model::mark_split_as_deleted(store, index_uri, split_id)->Ok_0);
            &&& model::mark_split_as_deleted(store, index_uri, split_id) is Ok
            &&& model::find_split(scheduled, index_uri, split_id) matches Ok(split)
            &&& split.split_state == SplitState::ScheduledForDeletion
            &&& model::mark_split_as_deleted(scheduled, index_uri, split_id)
                == Ok::<Option<ManifestUpdateView>, MetastoreErrorView>(None)
        }),
{
}

/// A split that is scheduled for deletion is never published again.
pub proof fn law_scheduled_split_is_never_published(
    store: Map<Seq<char>, MetadataSetView>,
    index_uri: Seq<char>,
    split_id: Seq<char>,
)
    requires
        model::find_split(store, index_uri, split_id) is Ok,
    ensures
        ({
            let scheduled = after(store, model::mark_split_as_deleted(store, index_uri, split_id)->Ok_0);
            model::publish_split(scheduled, index_uri, split_id)
                == Err::<Option<ManifestUpdateView>, _>(MetastoreErrorView::SplitIsNotStaged { split_id })
        }),
{
}

/// A published split cannot be deleted right away; once it is scheduled for deletion it can, as
/// can every other split, and then it is gone.
pub proof fn law_deletion_goes_through_scheduling(
    store: Map<Seq<char>, MetadataSetView>,
    index_uri: Seq<char>,
    split_id: Seq<char>,
)
    requires
        model::find_split(store, index_uri, split_id) is Ok,
    ensures
        store[index_uri].splits[split_id].split_state == SplitState::Published ==> (
        model::delete_split(store, index_uri, split_id) matches Err(error) && error.kind()
            == MetastoreErrorKind::Forbidden),
        ({
            let scheduled = after(store, model::mark_split_as_deleted(store, index_uri, split_id)->Ok_0);
            &&& model::delete_split(scheduled, index_uri, split_id) matches Ok(deletion)
            &&& model::find_split(model::updated(scheduled, deletion), index_uri, split_id)
                == Err::<SplitMetadataView, _>(MetastoreErrorView::DoesNotExist { split_id })
            &&& model::updated(scheduled, deletion)[index_uri]
                == store[index_uri].without_split(split_id)
        }),
{
    let scheduled = after(store, model::mark_split_as_deleted(store, index_uri, split_id)->Ok_0);
    assert(scheduled[index_uri].without_split(split_id) =~= store[index_uri].without_split(split_id));
}

/// Deleting a split that was just staged undoes the staging.
pub proof fn law_deleting_undoes_staging(
    store: Map<Seq<char>, MetadataSetView>,
    index_uri: Seq<char>,
    split_id: Seq<char>,
    split: SplitMetadataView,
)
    requires
        model::stage_split(store, index_uri, split_id, split) is Ok,
    ensures
        ({
            let staged = model::updated(store, model::stage_split(store, index_uri, split_id, split)->Ok_0);
            &&& model::delete_split(staged, index_uri, split_id) matches Ok(deletion)
            &&& model::updated(staged, deletion) == store
        }),
{
    let staged = model::updated(store, model::stage_split(store, index_uri, split_id, split)->Ok_0);
    let deletion = model::delete_split(staged, index_uri, split_id)->Ok_0;
    assert(deletion.metadata_set =~= store[index_uri]);
    assert(model::updated(staged, deletion) =~= store);
}

/// The update of a split operation is about the split `split_id` of the index `index_uri` alone:
/// no other index changes, no index appears, and in the index itself only that split changes.
pub open spec fn concerns_only(
    store: Map<Seq<char>, MetadataSetView>,
    update: ManifestUpdateView,
    index_uri: Seq<char>,
    split_id: Seq<char>,
) -> bool {
    let changed = model::updated(store, update);
    &&& store.contains_key(index_uri)
    &&& changed.dom() == store.dom()
    &&& changed.remove(index_uri) == store.remove(index_uri)
    &&& changed[index_uri].version == store[index_uri].version
    &&& changed[index_uri].splits.remove(split_id) == store[index_uri].splits.remove(split_id)
}

/// Whatever is done with a split leaves the other splits and the other indexes alone.
pub proof fn law_split_operations_are_local(
    store: Map<Seq<char>, MetadataSetView>,
    index_uri: Seq<char>,
    split_id: Seq<char>,
    split: SplitMetadataView,
)
    ensures
        model::stage_split(store, index_uri, split_id, split) matches Ok(update) ==> concerns_only(
            store,
            update,
            index_uri,
            split_id,
        ),
        model::publish_split(store, index_uri, split_id) matches Ok(Some(update)) ==> concerns_only(
            store,
            update,
            index_uri,
            split_id,
        ),
        model::mark_split_as_deleted(store, index_uri, split_id) matches Ok(Some(update))
            ==> concerns_only(store, update, index_uri, split_id),
        model::delete_split(store, index_uri, split_id) matches Ok(update) ==> concerns_only(
            store,
            update,
            index_uri,
            split_id,
        ),
{
    assert forall|update: ManifestUpdateView, splits: Map<Seq<char>, SplitMetadataView>|
        store.contains_key(index_uri) && update.index_uri == index_uri && #[trigger] update.metadata_set
            == (MetadataSetView { splits, ..store[index_uri] }) && #[trigger] splits.remove(split_id)
            == store[index_uri].splits.remove(split_id) implies concerns_only(
        store,
        update,
        index_uri,
        split_id,
    ) by {
        let changed = model::updated(store, update);
        assert(changed.dom() =~= store.dom());
        assert(changed.remove(index_uri) =~= store.remove(index_uri));
    }
    let splits = store[index_uri].splits;
    if let Ok(update) = model::stage_split(store, index_uri, split_id, split) {
        assert(update.metadata_set.splits.remove(split_id) =~= splits.remove(split_id));
    }
    if let Ok(Some(update)) = model::publish_split(store, index_uri, split_id) {
        assert(update.metadata_set.splits.remove(split_id) =~= splits.remove(split_id));
    }
    if let Ok(Some(update)) = model::mark_split_as_deleted(store, index_uri, split_id) {
        assert(update.metadata_set.splits.remove(split_id) =~= splits.remove(split_id));
    }
    if let Ok(update) = model::delete_split(store, index_uri, split_id) {
        assert(update.metadata_set.splits.remove(split_id) =~= splits.remove(split_id));
    }
}

/// A split only grows older: publishing it or scheduling it for deletion moves it forward in its
/// life and changes nothing else about it.
pub proof fn law_splits_only_move_forward(
    store: Map<Seq<char>, MetadataSetView>,
    index_uri: Seq<char>,
    split_id: Seq<char>,
)
    ensures
        model::publish_split(store, index_uri, split_id) matches Ok(Some(update)) ==> {
            let old_split = store[index_uri].splits[split_id];
            let new_split = update.metadata_set.splits[split_id];
            &&& age(old_split.split_state) < age(new_split.split_state)
            &&& new_split == old_split.in_state(new_split.split_state)
        },
        model::mark_split_as_deleted(store, index_uri, split_id) matches Ok(Some(update)) ==> {
            let old_split = store[index_uri].splits[split_id];
            let new_split = update.metadata_set.splits[split_id];
            &&& age(old_split.split_state) < age(new_split.split_state)
            &&& new_split == old_split.in_state(new_split.split_state)
        },
{
}

/// A split that was staged is found by a search for staged splits, and by no search for splits in
/// another state.
pub proof fn law_staged_split_is_listed(
    store: Map<Seq<char>, MetadataSetView>,
    index_uri: Seq<char>,
    split_id: Seq<char>,
    split: SplitMetadataView,
    listing: Seq<SplitMetadataView>,
    ids: Seq<Seq<char>>,
    state: SplitState,
    time_range: Option<Range<u64>>,
)
    requires
        model::stage_split(store, index_uri, split_id, split) is Ok,
    ensures
        ({
            let staged = model::updated(store, model::stage_split(store, index_uri, split_id, split)->Ok_0);
            &&& model::lists(listing, staged[index_uri].splits, SplitState::Staged, None)
                ==> listing.contains(split.in_state(SplitState::Staged))
            &&& model::selects(ids, staged[index_uri].splits, state, time_range) && state
                != SplitState::Staged ==> !ids.contains(split_id)
        }),
{
    let staged = model::updated(store, model::stage_split(store, index_uri, split_id, split)->Ok_0);
    let splits = staged[index_uri].splits;
    if model::lists(listing, splits, SplitState::Staged, None) {
        let names = choose|names: Seq<Seq<char>>| #[trigger]
            model::selects(names, splits, SplitState::Staged, None) && listing == model::metadata_of(
                names,
                splits,
            );
        assert(names.contains(split_id));
        let i = choose|i: int| 0 <= i < names.len() && names[i] == split_id;
        assert(listing[i] == split.in_state(SplitState::Staged));
    }
}

/// A search without a time range finds every split under exactly one state, its own.
pub proof fn law_every_split_is_listed_under_its_state(split: SplitMetadataView, state: SplitState)
    ensures
        split.selected_by(state, None) <==> state == split.split_state,
{
}

/// A time range only narrows a search, and never lets a split without a time range through.
pub proof fn law_time_range_narrows_search(
    split: SplitMetadataView,
    state: SplitState,
    time_range: Range<u64>,
)
    ensures
        split.selected_by(state, Some(time_range)) ==> split.selected_by(state, None),
        split.selected_by(state, Some(time_range)) ==> split.time_range is Some,
{
}

/// Two ranges that are not empty touch exactly if they overlap or adjoin, whichever comes first.
pub proof fn law_touching_ranges_overlap_or_adjoin(a: Range<u64>, b: Range<u64>)
    requires
        a.start < a.end,
        b.start < b.end,
    ensures
        split::ranges_touch(a, b) <==> a.start <= b.end && b.start <= a.end,
        split::ranges_touch(a, b) == split::ranges_touch(b, a),
{
}

/// A search determines its listing up to the order: two listings of one search hold the same
/// metadata the same number of times.
pub proof fn law_listing_is_unique(
    first: Seq<SplitMetadataView>,
    second: Seq<SplitMetadataView>,
    splits: Map<Seq<char>, SplitMetadataView>,
    state: SplitState,
    time_range: Option<Range<u64>>,
)
    requires
        model::lists(first, splits, state, time_range),
        model::lists(second, splits, state, time_range),
    ensures
        first.to_multiset() == second.to_multiset(),
{
    let first_ids = choose|ids: Seq<Seq<char>>| #[trigger]
        model::selects(ids, splits, state, time_range) && first == model::metadata_of(ids, splits);
    let second_ids = choose|ids: Seq<Seq<char>>| #[trigger]
        model::selects(ids, splits, state, time_range) && second == model::metadata_of(ids, splits);
    lemma_same_ids_same_metadata(first_ids, second_ids, splits);
}

proof fn lemma_same_ids_same_metadata(
    first: Seq<Seq<char>>,
    second: Seq<Seq<char>>,
    splits: Map<Seq<char>, SplitMetadataView>,
)
    requires
        first.no_duplicates(),
        second.no_duplicates(),
        forall|id: Seq<char>| #[trigger] first.contains(id) <==> second.contains(id),
    ensures
        model::metadata_of(first, splits).to_multiset() == model::metadata_of(second, splits).to_multiset(),
    decreases first.len(),
{
    broadcast use vstd::seq_lib::group_to_multiset_ensures;

    if first.len() == 0 {
        if second.len() > 0 {
            assert(second.contains(second[0]));
            assert(!first.contains(second[0]));
        }
        assert(first =~= second);
    } else {
        let last = first.last();
        let rest = first.drop_last();
        assert(first[first.len() - 1] == last);
        assert(first.contains(last));
        let i = choose|i: int| 0 <= i < second.len() && second[i] == last;
        let others = second.remove(i);
        assert forall|id: Seq<char>| #[trigger] rest.contains(id) <==> others.contains(id) by {
            assert(first.contains(id) <==> second.contains(id));
            if rest.contains(id) {
                let j = choose|j: int| 0 <= j < rest.len() && rest[j] == id;
                assert(first[j] == id);
                assert(first.contains(id));
                let k = choose|k: int| 0 <= k < second.len() && second[k] == id;
                assert(k != i);
                assert(others[if k < i { k } else { k - 1 }] == id);
            }
            if others.contains(id) {
                let k = choose|k: int| 0 <= k < others.len() && others[k] == id;
                assert(second[if k < i { k } else { k + 1 }] == id);
                assert(second.contains(id));
                let j = choose|j: int| 0 <= j < first.len() && first[j] == id;
                assert(rest[j] == id);
            }
        }
        lemma_same_ids_same_metadata(rest, others, splits);
        let all = model::metadata_of(second, splits);
        assert(model::metadata_of(first, splits) =~= model::metadata_of(rest, splits).push(splits[last]));
        assert(model::metadata_of(others, splits) =~= all.remove(i));
        assert(all.to_multiset().count(splits[last]) > 0) by {
            assert(all[i] == splits[last]);
            assert(all.contains(splits[last]));
        }
        assert(all.to_multiset() =~= all.to_multiset().remove(splits[last]).insert(splits[last]));
    }
}

} // verus!
