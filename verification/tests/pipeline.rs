use quickwit::pipeline::{
    spawn_indexing_pipeline, IndexerCommitPolicy, PipelineAction, PipelineIndex, PipelineStage,
    PipelineTypes, StageSpec,
};

struct TestPipeline;

/// The mailbox of an actor is the name of the actor.
impl PipelineTypes for TestPipeline {
    type Metastore = String;
    type IndexConfig = u8;
    type Storage = String;
    type KillSwitch = u32;
    type Mailbox = PipelineStage;
    type Error = String;
}

fn index() -> PipelineIndex<u8> {
    PipelineIndex {
        index_id: "test-index".to_string(),
        index_uri: "ram://test-index".to_string(),
        index_config: 7,
    }
}

/// An actor and the one that it sends to.
type Started = (PipelineStage, Option<PipelineStage>);

/// Starts the actors, where the one at `failing` fails.
fn start(failing: Option<PipelineStage>) -> (Vec<Started>, Result<(), String>) {
    let the_metastore = "metastore".to_string();
    let the_kill_switch: u32 = 42;
    let request =
        spawn_indexing_pipeline::<TestPipeline>("test-index".to_string(), &the_metastore);
    assert_eq!(request.index_id(), "test-index");
    assert_eq!(request.metastore(), "metastore");
    let request = match request.index_metadata_received(Ok(index())) {
        Ok(request) => request,
        Err(error) => return (vec![], Err(error)),
    };
    assert_eq!(request.index_uri(), "ram://test-index");
    let mut started: Vec<Started> = Vec::new();
    let mut action =
        request.storage_resolved(Ok("storage at ram://test-index".to_string()), &the_kill_switch);
    loop {
        match action {
            PipelineAction::Start { stage, downstream, kill_switch, rest } => {
                if failing == Some(stage.stage()) {
                    action = rest.stage_started(Err("failed".to_string()));
                    continue;
                }
                assert_eq!(*kill_switch, 42);
                match &stage {
                    StageSpec::Publisher { metastore } => assert_eq!(*metastore, "metastore"),
                    StageSpec::Uploader { metastore, storage } => {
                        assert_eq!(*metastore, "metastore");
                        assert_eq!(storage, "storage at ram://test-index");
                    }
                    StageSpec::Packager => {}
                    StageSpec::Indexer {
                        index_id,
                        index_config,
                        indexing_directory,
                        commit_policy,
                    } => {
                        assert_eq!(index_id, "test-index");
                        assert_eq!(*index_config, 7);
                        assert_eq!(*indexing_directory, None);
                        assert_eq!(*commit_policy, IndexerCommitPolicy::Default);
                    }
                    StageSpec::Source { path } => assert_eq!(path, "data/test_corpus.json"),
                }
                started.push((stage.stage(), downstream));
                action = rest.stage_started(Ok(stage.stage()));
            }
            PipelineAction::Running => return (started, Ok(())),
            PipelineAction::Failed(error) => return (started, Err(error)),
        }
    }
}

#[test]
fn test_indexing_pipeline() {
    let (started, result) = start(None);
    result.unwrap();
    assert_eq!(
        started,
        vec![
            (PipelineStage::Publisher, None),
            (PipelineStage::Uploader, Some(PipelineStage::Publisher)),
            (PipelineStage::Packager, Some(PipelineStage::Uploader)),
            (PipelineStage::Indexer, Some(PipelineStage::Packager)),
            (PipelineStage::Source, Some(PipelineStage::Indexer)),
        ]
    );
}

#[test]
fn failing_indexer_ends_the_startup() {
    let (started, result) = start(Some(PipelineStage::Indexer));
    assert_eq!(result, Err("failed".to_string()));
    assert_eq!(
        started,
        vec![
            (PipelineStage::Publisher, None),
            (PipelineStage::Uploader, Some(PipelineStage::Publisher)),
            (PipelineStage::Packager, Some(PipelineStage::Uploader)),
        ]
    );
}

#[test]
fn failing_source_ends_the_startup() {
    let (started, result) = start(Some(PipelineStage::Source));
    assert_eq!(result, Err("failed".to_string()));
    assert_eq!(started.len(), 4);
}

#[test]
fn failing_metastore_or_storage_starts_nothing() {
    let metastore = "metastore".to_string();
    let kill_switch: u32 = 42;
    let request = spawn_indexing_pipeline::<TestPipeline>("test-index".to_string(), &metastore);
    let failed = request.index_metadata_received(Err("unknown".to_string()));
    assert!(matches!(failed, Err(error) if error == "unknown"));

    let request = spawn_indexing_pipeline::<TestPipeline>("test-index".to_string(), &metastore)
        .index_metadata_received(Ok(index()))
        .ok()
        .unwrap();
    let action = request.storage_resolved(Err("no such storage".to_string()), &kill_switch);
    assert!(matches!(action, PipelineAction::Failed(error) if error == "no such storage"));
}
