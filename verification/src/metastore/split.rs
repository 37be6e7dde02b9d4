//! Splits: the immutable pieces that an index is made of.

use std::ops::Range;
use vstd::prelude::*;

verus! {

/// Where a split stands in its life.
#[derive(Clone, Copy, Debug, PartialEq, Eq, Structural)]
pub enum SplitState {
    /// The split is registered; its files may still be on their way to the storage.
    Staged,
    /// The split is complete and takes part in searches.
    Published,
    /// The split is no longer searched and its files may be removed.
    ScheduledForDeletion,
}

/// What the metastore knows of one split.
#[derive(Debug)]
pub struct SplitMetadata {
    pub split_id: String,
    pub split_state: SplitState,
    pub num_records: usize,
    pub size_in_bytes: usize,
    /// The time range that the records of the split lie in, where they have a time.
    pub time_range: Option<Range<u64>>,
    /// How many merges the split is the result of.
    pub generation: usize,
}

/// The mathematical value of a [`SplitMetadata`].
pub struct SplitMetadataView {
    pub split_id: Seq<char>,
    pub split_state: SplitState,
    pub num_records: nat,
    pub size_in_bytes: nat,
    pub time_range: Option<Range<u64>>,
    pub generation: nat,
}

impl View for SplitMetadata {
    type V = SplitMetadataView;

    open spec fn view(&self) -> SplitMetadataView {
        SplitMetadataView {
            split_id: self.split_id@,
            split_state: self.split_state,
            num_records: self.num_records as nat,
            size_in_bytes: self.size_in_bytes as nat,
            time_range: self.time_range,
            generation: self.generation as nat,
        }
    }
}

impl SplitMetadataView {
    /// The same split in another state.
    pub open spec fn in_state(self, state: SplitState) -> SplitMetadataView {
        SplitMetadataView { split_state: state, ..self }
    }

    /// Whether a search for splits in `state`, narrowed to `time_range` where one is given,
    /// has to look at this split. A split without a time range is never selected by time.
    pub open spec fn selected_by(self, state: SplitState, time_range: Option<Range<u64>>) -> bool {
        &&& self.split_state == state
        &&& match (time_range, self.time_range) {
            (None, _) => true,
            (Some(_), None) => false,
            (Some(filter), Some(own)) => ranges_touch(own, filter),
        }
    }
}

/// Whether `instant` lies in the half-open range.
pub open spec fn in_range(range: Range<u64>, instant: u64) -> bool {
    range.start <= instant < range.end
}

/// Whether one of the two ranges contains a bound of the other. Ranges that merely adjoin,
/// such as `0..100` and `100..200`, do touch.
pub open spec fn ranges_touch(a: Range<u64>, b: Range<u64>) -> bool {
    ||| in_range(a, b.start)
    ||| in_range(a, b.end)
    ||| in_range(b, a.start)
    ||| in_range(b, a.end)
}

impl Clone for SplitMetadata {
    fn clone(&self) -> (copy: Self)
        ensures
            copy@ == self@,
    {
        self.with_state(self.split_state)
    }
}

impl SplitMetadata {
    /// A copy of the metadata with the split moved to `split_state`.
    pub fn with_state(&self, split_state: SplitState) -> (copy: SplitMetadata)
        ensures
            copy@ == self@.in_state(split_state),
    {
        let time_range: Option<Range<u64>> = match &self.time_range {
            Some(range) => Some(Range { start: range.start, end: range.end }),
            None => None,
        };
        SplitMetadata {
            split_id: self.split_id.clone(),
            split_state,
            num_records: self.num_records,
            size_in_bytes: self.size_in_bytes,
            time_range,
            generation: self.generation,
        }
    }

    /// Whether a search for splits in `state`, narrowed to `time_range` where one is given,
    /// has to look at this split.
    pub fn is_selected_by(&self, state: SplitState, time_range: &Option<Range<u64>>) -> (selected: bool)
        ensures
            selected == self@.selected_by(state, *time_range),
    {
        if self.split_state != state {
            return false;
        }
        match time_range {
            None => true,
            Some(filter) => match &self.time_range {
                None => false,
                Some(own) => {
                    own.contains(&filter.start) || own.contains(&filter.end)
                        || filter.contains(&own.start) || filter.contains(&own.end)
                },
            },
        }
    }
}

} // verus!
