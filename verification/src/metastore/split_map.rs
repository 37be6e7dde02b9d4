//! The splits of one index, by split id.

use crate::metastore::split::{SplitMetadata, SplitMetadataView};
use vstd::hash_map::StringHashMap;
use vstd::prelude::*;

verus! {

/// A map from split ids to split metadata. Lookups are hashed; the ids are listed in the order
/// in which they came in, and an id keeps its place while its split is replaced.
pub struct SplitMap {
    entries: StringHashMap<SplitMetadata>,
    ids: Vec<String>,
}

impl View for SplitMap {
    type V = Map<Seq<char>, SplitMetadataView>;

    closed spec fn view(&self) -> Map<Seq<char>, SplitMetadataView> {
        self.entries@.map_values(|metadata: SplitMetadata| metadata@)
    }
}

/// The characters of each of the ids.
pub open spec fn id_views(ids: Seq<String>) -> Seq<Seq<char>> {
    ids.map_values(|id: String| id@)
}

/// Whether an id is another one than `id`.
pub open spec fn other_than(id: Seq<char>) -> spec_fn(Seq<char>) -> bool {
    |other: Seq<char>| other != id
}

/// The ids other than `id`, in the same order.
pub open spec fn without(ids: Seq<Seq<char>>, id: Seq<char>) -> Seq<Seq<char>> {
    ids.filter(other_than(id))
}

/// `ids` names each key of `entries` exactly once.
pub open spec fn enumerates<V>(ids: Seq<Seq<char>>, entries: Map<Seq<char>, V>) -> bool {
    &&& ids.no_duplicates()
    &&& forall|id: Seq<char>| #[trigger] entries.contains_key(id) <==> ids.contains(id)
}

impl SplitMap {
    /// The ids of the splits, in the order in which they came in.
    pub closed spec fn order(&self) -> Seq<Seq<char>> {
        id_views(self.ids@)
    }

    #[verifier::type_invariant]
    spec fn well_formed(self) -> bool {
        enumerates(id_views(self.ids@), self.entries@)
    }

    /// The map without any split.
    pub fn new() -> (map: SplitMap)
        ensures
            map@ == Map::<Seq<char>, SplitMetadataView>::empty(),
            map.order() == Seq::<Seq<char>>::empty(),
    {
        let map = SplitMap { entries: StringHashMap::new(), ids: Vec::new() };
        assert(map@ =~= Map::<Seq<char>, SplitMetadataView>::empty());
        assert(map.order() =~= Seq::<Seq<char>>::empty());
        map
    }

    /// The number of splits.
    pub fn len(&self) -> (len: usize)
        ensures
            len == self@.len(),
    {
        assert(self@.dom() =~= self.entries@.dom());
        self.entries.len()
    }

    /// Whether there is a split with the given id.
    pub fn contains_key(&self, split_id: &str) -> (contained: bool)
        ensures
            contained == self@.contains_key(split_id@),
    {
        self.entries.contains_key(split_id)
    }

    /// The metadata of the split with the given id.
    pub fn get(&self, split_id: &str) -> (metadata: Option<&SplitMetadata>)
        ensures
            match metadata {
                Some(metadata) => self@.contains_key(split_id@) && metadata@ == self@[split_id@],
                None => !self@.contains_key(split_id@),
            },
    {
        self.entries.get(split_id)
    }

    /// The ids of the splits, each once, in the order in which they came in.
    pub fn ids(&self) -> (ids: &Vec<String>)
        ensures
            id_views(ids@) == self.order(),
            enumerates(id_views(ids@), self@),
    {
        proof {
            use_type_invariant(&*self);
        }
        assert(forall|id: Seq<char>| #[trigger] self@.contains_key(id) <==> self.entries@.contains_key(id));
        &self.ids
    }

    /// Takes the map apart and leaves an empty one behind.
    fn take_parts(&mut self) -> (parts: (StringHashMap<SplitMetadata>, Vec<String>))
        ensures
            parts.0@ == old(self).entries@,
            id_views(parts.1@) == old(self).order(),
            enumerates(id_views(parts.1@), parts.0@),
    {
        let mut taken = SplitMap::new();
        std::mem::swap(self, &mut taken);
        proof {
            use_type_invariant(&taken);
        }
        (taken.entries, taken.ids)
    }

    /// Registers the split under the given id, in place of the split that had it.
    pub fn insert(&mut self, split_id: String, metadata: SplitMetadata)
        ensures
            final(self)@ == old(self)@.insert(split_id@, metadata@),
            final(self).order() == if old(self)@.contains_key(split_id@) {
                old(self).order()
            } else {
                old(self).order().push(split_id@)
            },
    {
        let (mut entries, mut ids) = self.take_parts();
        let ghost old_ids = id_views(ids@);
        let ghost old_entries = entries@;
        if !entries.contains_key(split_id.as_str()) {
            ids.push(split_id.clone());
            proof {
                assert(id_views(ids@) =~= old_ids.push(split_id@));
                lemma_enumerates_push(old_ids, old_entries, split_id@, metadata);
            }
        } else {
            assert(forall|id: Seq<char>| #[trigger] old_entries.insert(split_id@, metadata).contains_key(id)
                <==> old_entries.contains_key(id));
        }
        entries.insert(split_id, metadata);
        *self = SplitMap { entries, ids };
        assert(self@ =~= old(self)@.insert(split_id@, metadata@));
    }

    /// Forgets the split with the given id, if there is one.
    pub fn remove(&mut self, split_id: &str)
        ensures
            final(self)@ == old(self)@.remove(split_id@),
            final(self).order() == without(old(self).order(), split_id@),
    {
        let (mut entries, ids) = self.take_parts();
        let ghost old_entries = entries@;
        entries.remove(split_id);
        let kept = ids_without(&ids, split_id);
        proof {
            lemma_enumerates_without(id_views(ids@), old_entries, split_id@);
        }
        *self = SplitMap { entries, ids: kept };
        assert(self@ =~= old(self)@.remove(split_id@));
    }
}

/// The ids other than `split_id`, in the same order.
fn ids_without(ids: &Vec<String>, split_id: &str) -> (kept: Vec<String>)
    ensures
        id_views(kept@) == without(id_views(ids@), split_id@),
{
    let removed = split_id.to_owned();
    let mut kept: Vec<String> = Vec::new();
    proof {
        reveal(Seq::filter);
        assert(id_views(kept@) =~= without(id_views(ids@).take(0), split_id@));
    }
    let mut i: usize = 0;
    while i < ids.len()
        invariant
            i <= ids.len(),
            removed@ == split_id@,
            id_views(kept@) == without(id_views(ids@).take(i as int), split_id@),
        decreases ids.len() - i,
    {
        let ghost before = id_views(kept@);
        if ids[i] != removed {
            kept.push(ids[i].clone());
            assert(id_views(kept@) =~= before.push(ids[i as int]@));
        }
        proof {
            reveal(Seq::filter);
            let seen = id_views(ids@).take(i + 1);
            assert(seen.drop_last() =~= id_views(ids@).take(i as int));
            assert(seen.last() == ids[i as int]@);
        }
        i += 1;
    }
    assert(id_views(ids@).take(ids@.len() as int) =~= id_views(ids@));
    kept
}

impl Clone for SplitMap {
    fn clone(&self) -> (copy: Self)
        ensures
            copy@ == self@,
            copy.order() == self.order(),
    {
        let mut copy = SplitMap::new();
        assert(copy.order() =~= self.order().take(0));
        let ids = self.ids();
        let ghost names = id_views(ids@);
        let mut i: usize = 0;
        while i < ids.len()
            invariant
                i <= ids.len(),
                names == id_views(ids@),
                names == self.order(),
                enumerates(names, self@),
                copy.order() == names.take(i as int),
                forall|id: Seq<char>| #[trigger] copy@.contains_key(id) <==> names.take(i as int).contains(id),
                forall|id: Seq<char>| #[trigger] copy@.contains_key(id) ==> copy@[id] == self@[id],
            decreases ids.len() - i,
        {
            let ghost before = copy@;
            proof {
                assert(names.take(i + 1) =~= names.take(i as int).push(names[i as int]));
                assert(names.contains(names[i as int]));
                assert forall|id: Seq<char>| #[trigger] names.take(i + 1).contains(id)
                    <==> names.take(i as int).contains(id) || id == names[i as int] by {
                    lemma_push_contains(names.take(i as int), names[i as int], id);
                }
                assert(self@.contains_key(names[i as int]));
                assert(!names.take(i as int).contains(names[i as int]));
            }
            if let Some(metadata) = self.get(ids[i].as_str()) {
                copy.insert(ids[i].clone(), metadata.clone());
            }
            i += 1;
        }
        assert(names.take(names.len() as int) =~= names);
        assert(copy@ =~= self@);
        copy
    }
}

pub proof fn lemma_push_contains<A>(s: Seq<A>, last: A, a: A)
    ensures
        s.push(last).contains(a) <==> s.contains(a) || a == last,
{
    if s.contains(a) {
        let i = choose|i: int| 0 <= i < s.len() && s[i] == a;
        assert(s.push(last)[i] == a);
    }
    assert(s.push(last)[s.len() as int] == last);
}

proof fn lemma_enumerates_push<V>(ids: Seq<Seq<char>>, entries: Map<Seq<char>, V>, id: Seq<char>, value: V)
    requires
        enumerates(ids, entries),
        !entries.contains_key(id),
    ensures
        enumerates(ids.push(id), entries.insert(id, value)),
{
    assert forall|other: Seq<char>| #[trigger] entries.insert(id, value).contains_key(other)
        <==> ids.push(id).contains(other) by {
        lemma_push_contains(ids, id, other);
        assert(entries.contains_key(other) <==> ids.contains(other));
    }
    assert(!ids.contains(id));
}

proof fn lemma_enumerates_without<V>(ids: Seq<Seq<char>>, entries: Map<Seq<char>, V>, id: Seq<char>)
    requires
        enumerates(ids, entries),
    ensures
        enumerates(without(ids, id), entries.remove(id)),
{
    let keeps = other_than(id);
    let kept = without(ids, id);
    lemma_filter_no_duplicates(ids, keeps);
    assert forall|other: Seq<char>| #[trigger] entries.remove(id).contains_key(other)
        <==> kept.contains(other) by {
        assert(entries.contains_key(other) <==> ids.contains(other));
        if kept.contains(other) {
            ids.lemma_filter_contains_rev(keeps, other);
            let i = choose|i: int| 0 <= i < kept.len() && kept[i] == other;
            ids.lemma_filter_pred(keeps, i);
        }
        if ids.contains(other) && other != id {
            let i = choose|i: int| 0 <= i < ids.len() && ids[i] == other;
            ids.lemma_filter_contains(keeps, i);
        }
    }
}

proof fn lemma_filter_no_duplicates<A>(s: Seq<A>, pred: spec_fn(A) -> bool)
    requires
        s.no_duplicates(),
    ensures
        s.filter(pred).no_duplicates(),
    decreases s.len(),
{
    reveal(Seq::filter);
    if s.len() > 0 {
        let rest = s.drop_last();
        lemma_filter_no_duplicates(rest, pred);
        if rest.filter(pred).contains(s.last()) {
            rest.lemma_filter_contains_rev(pred, s.last());
        }
    }
}

} // verus!
