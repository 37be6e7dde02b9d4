use std::collections::HashMap;
use std::ops::Range;

use quickwit::metastore::error::{MetastoreError, MetastoreErrorKind, StorageOperation};
use quickwit::metastore::manifest::{MetadataSet, FILE_FORMAT_VERSION};
use quickwit::metastore::single_file::{
    CreateIndexStep, ManifestFailure, ManifestUpdate, SingleFileMetastore,
};
use quickwit::metastore::split::{SplitMetadata, SplitState};
use quickwit::metastore::split_map::SplitMap;

/// A metastore over a storage in memory that can be told to fail.
struct Harness {
    metastore: SingleFileMetastore,
    storage: HashMap<String, MetadataSet>,
    written_to: Vec<String>,
    failing: bool,
}

impl Harness {
    fn new() -> Harness {
        Harness {
            metastore: SingleFileMetastore::new(),
            storage: HashMap::new(),
            written_to: Vec::new(),
            failing: false,
        }
    }

    fn write(&mut self, update: ManifestUpdate) -> Result<(), MetastoreError> {
        let written = if self.failing {
            Err(ManifestFailure::Storage {
                cause: "Oops. Some network problem maybe?".to_string(),
            })
        } else {
            self.written_to.push(update.index_uri().clone());
            self.storage
                .insert(update.index_uri().clone(), update.metadata_set().clone());
            Ok(())
        };
        self.metastore.commit(update, written)
    }

    fn create_index(&mut self, index_uri: &str) -> Result<(), MetastoreError> {
        let exists = Ok(self.storage.contains_key(index_uri));
        let update = match SingleFileMetastore::create_index(index_uri.to_string(), exists)? {
            CreateIndexStep::WriteManifest { update } => update,
            CreateIndexStep::LoadManifest { index_uri } => {
                let manifest = self.storage.get(&index_uri).unwrap().clone();
                SingleFileMetastore::load_manifest(index_uri, Ok(manifest))?
            }
        };
        self.write(update)
    }

    fn delete_index(&mut self, index_uri: &str) -> Result<(), MetastoreError> {
        let deleted = if self.failing {
            Err("Oops. Some network problem maybe?".to_string())
        } else {
            self.storage.remove(index_uri);
            Ok(())
        };
        self.metastore.delete_index(index_uri, deleted)
    }

    fn stage_split(
        &mut self,
        index_uri: &str,
        split_id: &str,
        split_metadata: SplitMetadata,
    ) -> Result<String, MetastoreError> {
        let (split_id, update) = self.metastore.stage_split(
            index_uri.to_string(),
            split_id.to_string(),
            split_metadata,
        )?;
        self.write(update)?;
        Ok(split_id)
    }

    fn publish_split(&mut self, index_uri: &str, split_id: &str) -> Result<(), MetastoreError> {
        match self
            .metastore
            .publish_split(index_uri.to_string(), split_id.to_string())?
        {
            Some(update) => self.write(update),
            None => Ok(()),
        }
    }

    fn mark_split_as_deleted(
        &mut self,
        index_uri: &str,
        split_id: &str,
    ) -> Result<(), MetastoreError> {
        match self
            .metastore
            .mark_split_as_deleted(index_uri.to_string(), split_id.to_string())?
        {
            Some(update) => self.write(update),
            None => Ok(()),
        }
    }

    fn delete_split(&mut self, index_uri: &str, split_id: &str) -> Result<(), MetastoreError> {
        let update = self
            .metastore
            .delete_split(index_uri.to_string(), split_id.to_string())?;
        self.write(update)
    }

    fn list(
        &self,
        index_uri: &str,
        state: SplitState,
        time_range: Option<Range<u64>>,
    ) -> Vec<String> {
        let splits = self
            .metastore
            .list_splits(index_uri.to_string(), state, time_range)
            .unwrap();
        let mut split_ids = Vec::new();
        for split in splits {
            split_ids.push(split.split_id);
        }
        split_ids
    }

    fn split(&self, index_uri: &str, split_id: &str) -> &SplitMetadata {
        self.metastore
            .index(index_uri)
            .unwrap()
            .splits
            .get(split_id)
            .unwrap()
    }
}

const INDEX_URI: &str = "ram://test/index";

fn split(split_id: &str, time_range: Option<Range<u64>>) -> SplitMetadata {
    SplitMetadata {
        split_id: split_id.to_string(),
        split_state: SplitState::Staged,
        num_records: 1,
        size_in_bytes: 2,
        time_range,
        generation: 3,
    }
}

#[test]
fn test_single_file_metastore_create_index() {
    let mut harness = Harness::new();
    harness.create_index(INDEX_URI).unwrap();
    assert_eq!(harness.metastore.index(INDEX_URI).is_some(), true);
}

#[test]
fn test_single_file_metastore_delete_index() {
    let mut harness = Harness::new();
    harness.create_index(INDEX_URI).unwrap();

    harness.delete_index(INDEX_URI).unwrap();
    assert_eq!(harness.metastore.index(INDEX_URI).is_some(), false);
}

#[test]
fn test_single_file_metastore_stage_split() {
    let mut harness = Harness::new();
    harness.create_index(INDEX_URI).unwrap();

    {
        // stage split
        let staged_id = harness
            .stage_split(INDEX_URI, "one", split("one", Some(Range { start: 0, end: 100 })))
            .unwrap();
        assert_eq!(staged_id, "one");

        let splits = &harness.metastore.index(INDEX_URI).unwrap().splits;
        assert_eq!(splits.len(), 1);
        let staged = splits.get("one").unwrap();
        assert_eq!(staged.split_id, "one".to_string());
        assert_eq!(staged.split_state, SplitState::Staged);
        assert_eq!(staged.num_records, 1);
        assert_eq!(staged.size_in_bytes, 2);
        assert_eq!(staged.time_range, Some(Range { start: 0, end: 100 }));
        assert_eq!(staged.generation, 3);
    }

    {
        // stage split (existing split id)
        let result = harness
            .stage_split(INDEX_URI, "one", split("one", Some(Range { start: 0, end: 100 })))
            .unwrap_err()
            .kind();
        assert_eq!(result, MetastoreErrorKind::ExistingSplitId);
    }

    {
        // stage split (non-existent index uri)
        let result = harness
            .stage_split(
                "ram://test/non-existent-index",
                "one",
                split("one", Some(Range { start: 0, end: 100 })),
            )
            .unwrap_err()
            .kind();
        assert_eq!(result, MetastoreErrorKind::IndexDoesNotExist);
    }
}

#[test]
fn test_single_file_metastore_publish_split() {
    let mut harness = Harness::new();
    harness.create_index(INDEX_URI).unwrap();
    harness
        .stage_split(INDEX_URI, "one", split("one", Some(Range { start: 0, end: 100 })))
        .unwrap();

    {
        // publish split
        harness.publish_split(INDEX_URI, "one").unwrap();
        assert_eq!(
            harness.split(INDEX_URI, "one").split_state,
            SplitState::Published
        );
    }

    {
        // publish published split
        harness.publish_split(INDEX_URI, "one").unwrap();
    }

    {
        // publish non-existent split
        let result = harness
            .publish_split(INDEX_URI, "non-existant-split")
            .unwrap_err()
            .kind();
        assert_eq!(result, MetastoreErrorKind::DoesNotExist);
    }

    {
        // publish non-staged split
        harness.mark_split_as_deleted(INDEX_URI, "one").unwrap();
        let result = harness
            .publish_split(INDEX_URI, "one")
            .unwrap_err()
            .kind();
        assert_eq!(result, MetastoreErrorKind::SplitIsNotStaged);
    }
}

#[test]
fn test_single_file_metastore_list_splits() {
    let mut harness = Harness::new();
    harness.create_index(INDEX_URI).unwrap();
    harness
        .stage_split(INDEX_URI, "one", split("one", Some(Range { start: 0, end: 100 })))
        .unwrap();
    harness
        .stage_split(INDEX_URI, "two", split("two", Some(Range { start: 100, end: 200 })))
        .unwrap();
    harness
        .stage_split(INDEX_URI, "three", split("three", Some(Range { start: 200, end: 300 })))
        .unwrap();
    harness
        .stage_split(INDEX_URI, "four", split("four", Some(Range { start: 300, end: 400 })))
        .unwrap();

    // Each time range with whether it selects the splits one, two, three and four.
    let cases = vec![
        (Range { start: 0, end: 99 }, [true, false, false, false]),
        (Range { start: 0, end: 100 }, [true, true, false, false]),
        (Range { start: 0, end: 101 }, [true, true, false, false]),
        (Range { start: 0, end: 199 }, [true, true, false, false]),
        (Range { start: 0, end: 200 }, [true, true, true, false]),
        (Range { start: 0, end: 201 }, [true, true, true, false]),
        (Range { start: 0, end: 299 }, [true, true, true, false]),
        (Range { start: 0, end: 300 }, [true, true, true, true]),
        (Range { start: 0, end: 301 }, [true, true, true, true]),
        (Range { start: 301, end: 400 }, [false, false, false, true]),
        (Range { start: 300, end: 400 }, [false, false, true, true]),
        (Range { start: 299, end: 400 }, [false, false, true, true]),
        (Range { start: 201, end: 400 }, [false, false, true, true]),
        (Range { start: 200, end: 400 }, [false, true, true, true]),
        (Range { start: 199, end: 400 }, [false, true, true, true]),
        (Range { start: 101, end: 400 }, [false, true, true, true]),
        (Range { start: 101, end: 400 }, [false, true, true, true]),
        (Range { start: 100, end: 400 }, [true, true, true, true]),
        (Range { start: 99, end: 400 }, [true, true, true, true]),
    ];
    for (range, expected) in cases {
        let split_ids = harness.list(INDEX_URI, SplitState::Staged, Some(range));
        assert_eq!(split_ids.contains(&"one".to_string()), expected[0]);
        assert_eq!(split_ids.contains(&"two".to_string()), expected[1]);
        assert_eq!(split_ids.contains(&"three".to_string()), expected[2]);
        assert_eq!(split_ids.contains(&"four".to_string()), expected[3]);
    }

    {
        let range = Some(Range { start: 1000, end: 1100 });
        let splits = harness
            .metastore
            .list_splits(INDEX_URI.to_string(), SplitState::Staged, range)
            .unwrap();
        assert_eq!(splits.len(), 0);
    }

    {
        let split_ids = harness.list(INDEX_URI, SplitState::Staged, None);
        assert_eq!(split_ids.contains(&"one".to_string()), true);
        assert_eq!(split_ids.contains(&"two".to_string()), true);
        assert_eq!(split_ids.contains(&"three".to_string()), true);
        assert_eq!(split_ids.contains(&"four".to_string()), true);
        assert_eq!(split_ids.len(), 4);
    }
}

#[test]
fn test_single_file_metastore_mark_split_as_deleted() {
    let mut harness = Harness::new();
    harness.create_index(INDEX_URI).unwrap();
    harness
        .stage_split(INDEX_URI, "one", split("one", Some(Range { start: 0, end: 100 })))
        .unwrap();
    harness.publish_split(INDEX_URI, "one").unwrap();

    {
        // mark as deleted
        harness.mark_split_as_deleted(INDEX_URI, "one").unwrap();
        assert_eq!(
            harness.split(INDEX_URI, "one").split_state,
            SplitState::ScheduledForDeletion
        );
    }

    {
        // mark as deleted (already marked as deleted)
        harness.mark_split_as_deleted(INDEX_URI, "one").unwrap();
    }

    {
        // mark as deleted (non-existent)
        let result = harness
            .mark_split_as_deleted(INDEX_URI, "non-existant-split")
            .unwrap_err()
            .kind();
        assert_eq!(result, MetastoreErrorKind::DoesNotExist);
    }
}

#[test]
fn test_single_file_metastore_delete_split() {
    let mut harness = Harness::new();
    harness.create_index(INDEX_URI).unwrap();
    harness
        .stage_split(INDEX_URI, "one", split("one", Some(Range { start: 0, end: 100 })))
        .unwrap();
    harness.publish_split(INDEX_URI, "one").unwrap();

    {
        // delete split (published split)
        let result = harness.delete_split(INDEX_URI, "one").unwrap_err().kind();
        assert_eq!(result, MetastoreErrorKind::Forbidden);
    }

    harness.mark_split_as_deleted(INDEX_URI, "one").unwrap();

    {
        // delete split
        harness.delete_split(INDEX_URI, "one").unwrap();
        assert_eq!(
            harness
                .metastore
                .index(INDEX_URI)
                .unwrap()
                .splits
                .contains_key("one"),
            false
        );
    }

    {
        // delete split (non-existent)
        let result = harness
            .delete_split(INDEX_URI, "non-existant-split")
            .unwrap_err()
            .kind();
        assert_eq!(result, MetastoreErrorKind::DoesNotExist);
    }
}

#[test]
fn test_storage_failing() {
    // The single file metastore should not update its internal state if the storage fails.
    let mut harness = Harness::new();
    harness.create_index(INDEX_URI).unwrap();
    harness
        .stage_split(INDEX_URI, "one", split("one", None))
        .unwrap();
    assert_eq!(harness.written_to, vec![INDEX_URI, INDEX_URI]);

    harness.failing = true;
    let err = harness.publish_split(INDEX_URI, "one");
    assert!(err.is_err());

    assert!(harness
        .list(INDEX_URI, SplitState::Published, None)
        .is_empty());
    assert!(!harness.list(INDEX_URI, SplitState::Staged, None).is_empty());
}

#[test]
fn storage_failure_keeps_every_kind_of_change_out() {
    let mut harness = Harness::new();
    harness.create_index(INDEX_URI).unwrap();
    harness
        .stage_split(INDEX_URI, "one", split("one", None))
        .unwrap();

    harness.failing = true;
    assert_eq!(
        harness.create_index("ram://other").unwrap_err().kind(),
        MetastoreErrorKind::InternalError
    );
    assert!(harness.metastore.index("ram://other").is_none());
    assert_eq!(
        harness
            .stage_split(INDEX_URI, "two", split("two", None))
            .unwrap_err()
            .kind(),
        MetastoreErrorKind::InternalError
    );
    assert_eq!(
        harness
            .mark_split_as_deleted(INDEX_URI, "one")
            .unwrap_err()
            .kind(),
        MetastoreErrorKind::InternalError
    );
    assert_eq!(
        harness.delete_split(INDEX_URI, "one").unwrap_err().kind(),
        MetastoreErrorKind::InternalError
    );
    assert_eq!(
        harness.delete_index(INDEX_URI).unwrap_err().kind(),
        MetastoreErrorKind::InternalError
    );
    assert_eq!(
        harness.list(INDEX_URI, SplitState::Staged, None),
        vec!["one".to_string()]
    );
}

#[test]
fn new_index_has_the_current_version_and_no_splits() {
    let mut harness = Harness::new();
    harness.create_index(INDEX_URI).unwrap();
    let set = harness.metastore.index(INDEX_URI).unwrap();
    assert_eq!(set.index.version, FILE_FORMAT_VERSION);
    assert_eq!(set.splits.len(), 0);
}

#[test]
fn stored_index_is_read_back() {
    let mut harness = Harness::new();
    harness.create_index(INDEX_URI).unwrap();
    harness
        .stage_split(INDEX_URI, "one", split("one", Some(Range { start: 5, end: 7 })))
        .unwrap();
    harness.publish_split(INDEX_URI, "one").unwrap();

    harness.metastore = SingleFileMetastore::new();
    assert!(harness.metastore.index(INDEX_URI).is_none());
    harness.create_index(INDEX_URI).unwrap();
    assert_eq!(
        harness.split(INDEX_URI, "one").split_state,
        SplitState::Published
    );
    assert_eq!(
        harness.split(INDEX_URI, "one").time_range,
        Some(Range { start: 5, end: 7 })
    );
}

#[test]
fn creation_reports_what_failed() {
    let error = SingleFileMetastore::create_index(INDEX_URI.to_string(), Err("io".to_string()))
        .err()
        .unwrap();
    assert!(matches!(
        error,
        MetastoreError::InternalError { operation: StorageOperation::Exists, cause } if cause == "io"
    ));

    let error = SingleFileMetastore::load_manifest(
        INDEX_URI.to_string(),
        Err(ManifestFailure::Storage { cause: "io".to_string() }),
    )
    .err()
    .unwrap();
    assert!(matches!(
        error,
        MetastoreError::InternalError { operation: StorageOperation::GetAll, cause } if cause == "io"
    ));

    let error = SingleFileMetastore::load_manifest(
        INDEX_URI.to_string(),
        Err(ManifestFailure::Encoding { cause: "no json".to_string() }),
    )
    .err()
    .unwrap();
    assert!(matches!(error, MetastoreError::InvalidManifest { cause } if cause == "no json"));
}

#[test]
fn writing_and_deleting_report_what_failed() {
    let mut metastore = SingleFileMetastore::new();
    let update = SingleFileMetastore::load_manifest(INDEX_URI.to_string(), Ok(MetadataSet::empty()))
        .ok()
        .unwrap();
    let failure = ManifestFailure::Encoding { cause: "no json".to_string() };
    let error = metastore.commit(update, Err(failure)).unwrap_err();
    assert!(matches!(error, MetastoreError::InvalidManifest { cause } if cause == "no json"));
    assert!(metastore.index(INDEX_URI).is_none());

    let update = SingleFileMetastore::load_manifest(INDEX_URI.to_string(), Ok(MetadataSet::empty()))
        .ok()
        .unwrap();
    let failure = ManifestFailure::Storage { cause: "io".to_string() };
    let error = metastore.commit(update, Err(failure)).unwrap_err();
    assert!(matches!(
        error,
        MetastoreError::InternalError { operation: StorageOperation::Put, cause } if cause == "io"
    ));

    let error = metastore
        .delete_index(INDEX_URI, Err("io".to_string()))
        .unwrap_err();
    assert!(matches!(
        error,
        MetastoreError::InternalError { operation: StorageOperation::Delete, cause } if cause == "io"
    ));
}

#[test]
fn unknown_index_is_refused() {
    let mut harness = Harness::new();
    let expected = MetastoreErrorKind::IndexDoesNotExist;
    assert_eq!(
        harness
            .stage_split(INDEX_URI, "one", split("one", None))
            .unwrap_err()
            .kind(),
        expected
    );
    assert_eq!(
        harness.publish_split(INDEX_URI, "one").unwrap_err().kind(),
        expected
    );
    assert_eq!(
        harness
            .mark_split_as_deleted(INDEX_URI, "one")
            .unwrap_err()
            .kind(),
        expected
    );
    assert_eq!(
        harness.delete_split(INDEX_URI, "one").unwrap_err().kind(),
        expected
    );
    let error = harness
        .metastore
        .list_splits(INDEX_URI.to_string(), SplitState::Staged, None)
        .unwrap_err();
    assert!(matches!(error, MetastoreError::IndexDoesNotExist { index_uri } if index_uri == INDEX_URI));
    // Deleting what is not there is no error.
    harness.delete_index(INDEX_URI).unwrap();
}

#[test]
fn staging_forces_the_staged_state() {
    let mut harness = Harness::new();
    harness.create_index(INDEX_URI).unwrap();
    let mut published = split("one", None);
    published.split_state = SplitState::Published;
    harness.stage_split(INDEX_URI, "one", published).unwrap();
    assert_eq!(
        harness.split(INDEX_URI, "one").split_state,
        SplitState::Staged
    );
}

#[test]
fn idempotent_operations_write_nothing_the_second_time() {
    let mut harness = Harness::new();
    harness.create_index(INDEX_URI).unwrap();
    harness
        .stage_split(INDEX_URI, "one", split("one", None))
        .unwrap();
    harness.publish_split(INDEX_URI, "one").unwrap();
    assert_eq!(harness.written_to.len(), 3);
    harness.publish_split(INDEX_URI, "one").unwrap();
    assert_eq!(harness.written_to.len(), 3);
    harness.mark_split_as_deleted(INDEX_URI, "one").unwrap();
    assert_eq!(harness.written_to.len(), 4);
    harness.mark_split_as_deleted(INDEX_URI, "one").unwrap();
    assert_eq!(harness.written_to.len(), 4);
}

#[test]
fn deleting_a_staged_split_undoes_its_staging() {
    let mut harness = Harness::new();
    harness.create_index(INDEX_URI).unwrap();
    harness
        .stage_split(INDEX_URI, "one", split("one", None))
        .unwrap();
    harness
        .stage_split(INDEX_URI, "two", split("two", None))
        .unwrap();
    harness.delete_split(INDEX_URI, "two").unwrap();
    assert_eq!(
        harness.list(INDEX_URI, SplitState::Staged, None),
        vec!["one".to_string()]
    );
}

#[test]
fn operations_leave_other_indexes_and_splits_alone() {
    let mut harness = Harness::new();
    harness.create_index(INDEX_URI).unwrap();
    harness.create_index("ram://other").unwrap();
    harness
        .stage_split(INDEX_URI, "one", split("one", None))
        .unwrap();
    harness
        .stage_split(INDEX_URI, "two", split("two", None))
        .unwrap();
    harness
        .stage_split("ram://other", "one", split("one", None))
        .unwrap();
    harness.publish_split(INDEX_URI, "one").unwrap();
    assert_eq!(harness.split(INDEX_URI, "two").split_state, SplitState::Staged);
    assert_eq!(harness.split("ram://other", "one").split_state, SplitState::Staged);
    harness.delete_index(INDEX_URI).unwrap();
    assert!(harness.metastore.index("ram://other").is_some());
}

#[test]
fn splits_are_listed_under_their_state_alone() {
    let mut harness = Harness::new();
    harness.create_index(INDEX_URI).unwrap();
    for split_id in ["one", "two", "three"] {
        harness
            .stage_split(INDEX_URI, split_id, split(split_id, None))
            .unwrap();
    }
    harness.publish_split(INDEX_URI, "two").unwrap();
    harness.mark_split_as_deleted(INDEX_URI, "three").unwrap();
    assert_eq!(harness.list(INDEX_URI, SplitState::Staged, None), vec!["one"]);
    assert_eq!(harness.list(INDEX_URI, SplitState::Published, None), vec!["two"]);
    assert_eq!(
        harness.list(INDEX_URI, SplitState::ScheduledForDeletion, None),
        vec!["three"]
    );
}

#[test]
fn splits_without_time_are_never_selected_by_time() {
    let timeless = split("one", None);
    assert!(timeless.is_selected_by(SplitState::Staged, &None));
    assert!(!timeless.is_selected_by(SplitState::Staged, &Some(Range { start: 0, end: u64::MAX })));
}

#[test]
fn empty_ranges_are_selected_by_their_bounds() {
    let instant = split("one", Some(Range { start: 50, end: 50 }));
    assert!(instant.is_selected_by(SplitState::Staged, &Some(Range { start: 50, end: 51 })));
    assert!(!instant.is_selected_by(SplitState::Staged, &Some(Range { start: 40, end: 50 })));
    assert!(!instant.is_selected_by(SplitState::Staged, &Some(Range { start: 50, end: 50 })));
    let day = split("two", Some(Range { start: 0, end: 100 }));
    assert!(day.is_selected_by(SplitState::Staged, &Some(Range { start: 50, end: 50 })));
    assert!(!day.is_selected_by(SplitState::Staged, &Some(Range { start: 100, end: 100 })));
    assert!(!day.is_selected_by(SplitState::Published, &Some(Range { start: 50, end: 50 })));
}

#[test]
fn split_map_keeps_one_entry_per_id() {
    let mut splits = SplitMap::new();
    assert_eq!(splits.len(), 0);
    splits.insert("a".to_string(), split("first", None));
    splits.insert("b".to_string(), split("second", None));
    splits.insert("a".to_string(), split("third", None));
    assert_eq!(splits.len(), 2);
    assert_eq!(splits.ids(), &vec!["a".to_string(), "b".to_string()]);
    assert_eq!(splits.get("a").unwrap().split_id, "third");
    let copy = splits.clone();
    assert_eq!(copy.ids(), splits.ids());
    splits.insert("c".to_string(), split("fourth", None));
    splits.remove("a");
    splits.remove("missing");
    assert_eq!(splits.ids(), &vec!["b".to_string(), "c".to_string()]);
    splits.insert("a".to_string(), split("fifth", None));
    assert_eq!(
        splits.ids(),
        &vec!["b".to_string(), "c".to_string(), "a".to_string()]
    );
    splits.remove("a");
    assert!(splits.get("a").is_none());
    assert!(copy.contains_key("a"));
    assert_eq!(copy.len(), 2);
}
