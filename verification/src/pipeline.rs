//! Starting the actors of an indexing pipeline.
//!
//! Documents flow from the source through the indexer, the packager and the uploader to the
//! publisher. Each actor sends to the next, so the pipeline is started from its end.

use vstd::prelude::*;

verus! {

/// The file that the source reads.
pub const SOURCE_PATH: &'static str = "data/test_corpus.json";

/// The types of what a pipeline is made of. The startup passes such values on and looks into none.
pub trait PipelineTypes {
    /// Where the index is registered and its splits are published.
    type Metastore;

    /// The configuration of the index.
    type IndexConfig;

    /// Where the splits of the index are stored.
    type Storage;

    /// What all actors of the pipeline are stopped with.
    type KillSwitch;

    /// What is sent to an actor goes there.
    type Mailbox;

    /// Why a step failed.
    type Error;
}

/// What the metastore says of the index that the pipeline is for.
pub struct PipelineIndex<C> {
    pub index_id: String,
    pub index_uri: String,
    pub index_config: C,
}

/// An actor of the pipeline.
#[derive(Clone, Copy, Debug, PartialEq, Eq, Structural)]
pub enum PipelineStage {
    Publisher,
    Uploader,
    Packager,
    Indexer,
    Source,
}

impl PipelineStage {
    /// The actor that this one sends to.
    pub open spec fn downstream(self) -> Option<PipelineStage> {
        match self {
            PipelineStage::Publisher => None,
            PipelineStage::Uploader => Some(PipelineStage::Publisher),
            PipelineStage::Packager => Some(PipelineStage::Uploader),
            PipelineStage::Indexer => Some(PipelineStage::Packager),
            PipelineStage::Source => Some(PipelineStage::Indexer),
        }
    }
}

/// When the indexer cuts the documents at hand off into a split.
#[derive(Clone, Copy, Debug, PartialEq, Eq, Structural)]
pub enum IndexerCommitPolicy {
    /// As the indexer does it by default.
    Default,
}

/// What an actor of the pipeline is made of, besides the mailbox of the actor that it sends to.
pub enum StageSpec<'a, P: PipelineTypes> {
    /// Publishes splits in the metastore.
    Publisher { metastore: &'a P::Metastore },
    /// Uploads splits to the storage of the index and stages them in the metastore.
    Uploader { metastore: &'a P::Metastore, storage: P::Storage },
    /// Packages what the indexer has built.
    Packager,
    /// Indexes documents, in the given directory where there is one.
    Indexer {
        index_id: String,
        index_config: P::IndexConfig,
        indexing_directory: Option<String>,
        commit_policy: IndexerCommitPolicy,
    },
    /// Reads documents from a file.
    Source { path: String },
}

/// The mathematical value of a [`StageSpec`].
pub enum StageSpecView<P: PipelineTypes> {
    Publisher { metastore: P::Metastore },
    Uploader { metastore: P::Metastore, storage: P::Storage },
    Packager,
    Indexer {
        index_id: Seq<char>,
        index_config: P::IndexConfig,
        indexing_directory: Option<Seq<char>>,
        commit_policy: IndexerCommitPolicy,
    },
    Source { path: Seq<char> },
}

impl<'a, P: PipelineTypes> View for StageSpec<'a, P> {
    type V = StageSpecView<P>;

    open spec fn view(&self) -> StageSpecView<P> {
        match *self {
            StageSpec::Publisher { metastore } => StageSpecView::Publisher {
                metastore: *metastore,
            },
            StageSpec::Uploader { metastore, storage } => StageSpecView::Uploader {
                metastore: *metastore,
                storage,
            },
            StageSpec::Packager => StageSpecView::Packager,
            StageSpec::Indexer { index_id, index_config, indexing_directory, commit_policy } => {
                StageSpecView::Indexer {
                    index_id: index_id@,
                    index_config,
                    indexing_directory: match indexing_directory {
                        Some(directory) => Some(directory@),
                        None => None,
                    },
                    commit_policy,
                }
            },
            StageSpec::Source { path } => StageSpecView::Source { path: path@ },
        }
    }
}

impl<P: PipelineTypes> StageSpecView<P> {
    /// Which actor is specified.
    pub open spec fn stage(self) -> PipelineStage {
        match self {
            StageSpecView::Publisher { .. } => PipelineStage::Publisher,
            StageSpecView::Uploader { .. } => PipelineStage::Uploader,
            StageSpecView::Packager => PipelineStage::Packager,
            StageSpecView::Indexer { .. } => PipelineStage::Indexer,
            StageSpecView::Source { .. } => PipelineStage::Source,
        }
    }
}

impl<'a, P: PipelineTypes> StageSpec<'a, P> {
    /// Which actor is specified.
    pub fn stage(&self) -> (stage: PipelineStage)
        ensures
            stage == self@.stage(),
    {
        match self {
            StageSpec::Publisher { .. } => PipelineStage::Publisher,
            StageSpec::Uploader { .. } => PipelineStage::Uploader,
            StageSpec::Packager => PipelineStage::Packager,
            StageSpec::Indexer { .. } => PipelineStage::Indexer,
            StageSpec::Source { .. } => PipelineStage::Source,
        }
    }
}

/// A request for what the metastore says of an index. What comes of it goes to
/// [`MetadataRequest::index_metadata_received`].
pub struct MetadataRequest<'a, P: PipelineTypes> {
    index_id: String,
    metastore: &'a P::Metastore,
}

/// The mathematical value of a [`MetadataRequest`].
pub struct MetadataRequestView<P: PipelineTypes> {
    pub index_id: Seq<char>,
    pub metastore: P::Metastore,
}

impl<'a, P: PipelineTypes> View for MetadataRequest<'a, P> {
    type V = MetadataRequestView<P>;

    closed spec fn view(&self) -> MetadataRequestView<P> {
        MetadataRequestView { index_id: self.index_id@, metastore: *self.metastore }
    }
}

/// A request for the storage at a URI. What comes of it goes to
/// [`StorageRequest::storage_resolved`].
pub struct StorageRequest<'a, P: PipelineTypes> {
    index_id: String,
    metastore: &'a P::Metastore,
    index_uri: String,
    index_config: P::IndexConfig,
}

/// The mathematical value of a [`StorageRequest`].
pub struct StorageRequestView<P: PipelineTypes> {
    pub index_id: Seq<char>,
    pub metastore: P::Metastore,
    pub index_uri: Seq<char>,
    pub index_config: P::IndexConfig,
}

impl<'a, P: PipelineTypes> View for StorageRequest<'a, P> {
    type V = StorageRequestView<P>;

    closed spec fn view(&self) -> StorageRequestView<P> {
        StorageRequestView {
            index_id: self.index_id@,
            metastore: *self.metastore,
            index_uri: self.index_uri@,
            index_config: self.index_config,
        }
    }
}

/// The actors of a pipeline in the order in which they are started. The publisher and the uploader
/// share the metastore, and the uploader is given the storage that was resolved. The indexer is
/// given no directory, and commits as it does by default.
pub open spec fn startup_order<P: PipelineTypes>(
    request: StorageRequestView<P>,
    storage: P::Storage,
) -> Seq<StageSpecView<P>> {
    seq![
        StageSpecView::Publisher { metastore: request.metastore },
        StageSpecView::Uploader { metastore: request.metastore, storage },
        StageSpecView::Packager,
        StageSpecView::Indexer {
            index_id: request.index_id,
            index_config: request.index_config,
            indexing_directory: None,
            commit_policy: IndexerCommitPolicy::Default,
        },
        StageSpecView::Source { path: SOURCE_PATH@ },
    ]
}

/// Actors that are still to be started, in this order, under one kill switch.
pub struct Startup<'a, P: PipelineTypes> {
    pending: Vec<StageSpec<'a, P>>,
    kill_switch: &'a P::KillSwitch,
}

/// The mathematical value of a [`Startup`].
#[verifier::ext_equal]
pub struct StartupView<P: PipelineTypes> {
    pub pending: Seq<StageSpecView<P>>,
    pub kill_switch: P::KillSwitch,
}

impl<'a, P: PipelineTypes> View for Startup<'a, P> {
    type V = StartupView<P>;

    closed spec fn view(&self) -> StartupView<P> {
        StartupView {
            pending: self.pending@.map_values(|stage: StageSpec<'a, P>| stage@),
            kill_switch: *self.kill_switch,
        }
    }
}

/// What the caller has to do next to get the pipeline going.
pub enum PipelineAction<'a, P: PipelineTypes> {
    /// Make the actor, which sends to the mailbox `downstream` if there is one, and start it under
    /// the kill switch. What comes of it, the mailbox of the actor, goes to
    /// [`Startup::stage_started`].
    Start {
        stage: StageSpec<'a, P>,
        downstream: Option<P::Mailbox>,
        kill_switch: &'a P::KillSwitch,
        rest: Startup<'a, P>,
    },
    /// Nothing: the pipeline is running.
    Running,
    /// Give up.
    Failed(P::Error),
}

/// The mathematical value of a [`PipelineAction`].
#[verifier::ext_equal]
pub enum PipelineActionView<P: PipelineTypes> {
    Start {
        stage: StageSpecView<P>,
        downstream: Option<P::Mailbox>,
        kill_switch: P::KillSwitch,
        rest: StartupView<P>,
    },
    Running,
    Failed(P::Error),
}

impl<'a, P: PipelineTypes> View for PipelineAction<'a, P> {
    type V = PipelineActionView<P>;

    open spec fn view(&self) -> PipelineActionView<P> {
        match *self {
            PipelineAction::Start { stage, downstream, kill_switch, rest } => {
                PipelineActionView::Start {
                    stage: stage@,
                    downstream,
                    kill_switch: *kill_switch,
                    rest: rest@,
                }
            },
            PipelineAction::Running => PipelineActionView::Running,
            PipelineAction::Failed(error) => PipelineActionView::Failed(error),
        }
    }
}

/// The action that a startup calls for, where `last_started` is the mailbox of the actor that was
/// started before: start the first actor, if any is left, and let it send to that mailbox.
pub open spec fn next_start<P: PipelineTypes>(
    startup: StartupView<P>,
    last_started: Option<P::Mailbox>,
) -> PipelineActionView<P> {
    if startup.pending.len() > 0 {
        PipelineActionView::Start {
            stage: startup.pending[0],
            downstream: last_started,
            kill_switch: startup.kill_switch,
            rest: StartupView { pending: startup.pending.skip(1), kill_switch: startup.kill_switch },
        }
    } else {
        PipelineActionView::Running
    }
}

/// The first action, after an attempt to resolve the storage.
pub open spec fn first_action<P: PipelineTypes>(
    request: StorageRequestView<P>,
    resolved: Result<P::Storage, P::Error>,
    kill_switch: P::KillSwitch,
) -> PipelineActionView<P> {
    match resolved {
        Ok(storage) => next_start(
            StartupView { pending: startup_order(request, storage), kill_switch },
            None,
        ),
        Err(error) => PipelineActionView::Failed(error),
    }
}

/// The action after an attempt to start an actor.
pub open spec fn proceed<P: PipelineTypes>(
    startup: StartupView<P>,
    started: Result<P::Mailbox, P::Error>,
) -> PipelineActionView<P> {
    match started {
        Ok(mailbox) => next_start(startup, Some(mailbox)),
        Err(error) => PipelineActionView::Failed(error),
    }
}

/// Begins to spawn the indexing pipeline of an index.
pub fn spawn_indexing_pipeline<'a, P: PipelineTypes>(
    index_id: String,
    metastore: &'a P::Metastore,
) -> (request: MetadataRequest<'a, P>)
    ensures
        request@ == (MetadataRequestView::<P> { index_id: index_id@, metastore: *metastore }),
{
    MetadataRequest { index_id, metastore }
}

impl<'a, P: PipelineTypes> MetadataRequest<'a, P> {
    /// The index that the request is about.
    pub fn index_id(&self) -> (index_id: &String)
        ensures
            index_id@ == self@.index_id,
    {
        &self.index_id
    }

    /// The metastore that the request goes to.
    pub fn metastore(&self) -> (metastore: &'a P::Metastore)
        ensures
            *metastore == self@.metastore,
    {
        self.metastore
    }

    /// Goes on with what the metastore says of the index, or gives up if it did not answer.
    pub fn index_metadata_received(
        self,
        index: Result<PipelineIndex<P::IndexConfig>, P::Error>,
    ) -> (request: Result<StorageRequest<'a, P>, P::Error>)
        ensures
            match index {
                Ok(index) => request matches Ok(request) && request@ == (StorageRequestView::<P> {
                    index_id: self@.index_id,
                    metastore: self@.metastore,
                    index_uri: index.index_uri@,
                    index_config: index.index_config,
                }),
                Err(error) => request == Err::<StorageRequest<'a, P>, P::Error>(error),
            },
    {
        match index {
            Ok(index) => Ok(
                StorageRequest {
                    index_id: self.index_id,
                    metastore: self.metastore,
                    index_uri: index.index_uri,
                    index_config: index.index_config,
                },
            ),
            Err(error) => Err(error),
        }
    }
}

impl<'a, P: PipelineTypes> StorageRequest<'a, P> {
    /// The URI of the storage.
    pub fn index_uri(&self) -> (index_uri: &String)
        ensures
            index_uri@ == self@.index_uri,
    {
        &self.index_uri
    }

    /// Goes on with the storage of the index, or gives up if it could not be had. All actors are
    /// started under the kill switch.
    pub fn storage_resolved(
        self,
        resolved: Result<P::Storage, P::Error>,
        kill_switch: &'a P::KillSwitch,
    ) -> (action: PipelineAction<'a, P>)
        ensures
            action@ == first_action::<P>(self@, resolved, *kill_switch),
    {
        let storage = match resolved {
            Ok(storage) => storage,
            Err(error) => return PipelineAction::Failed(error),
        };
        let ghost request = self@;
        let ghost uploaded_to = storage;
        let mut pending: Vec<StageSpec<'a, P>> = Vec::new();
        pending.push(StageSpec::Publisher { metastore: self.metastore });
        pending.push(StageSpec::Uploader { metastore: self.metastore, storage });
        pending.push(StageSpec::Packager);
        pending.push(
            StageSpec::Indexer {
                index_id: self.index_id,
                index_config: self.index_config,
                indexing_directory: None,
                commit_policy: IndexerCommitPolicy::Default,
            },
        );
        pending.push(StageSpec::Source { path: SOURCE_PATH.to_owned() });
        let startup = Startup { pending, kill_switch };
        assert(startup@.pending =~= startup_order(request, uploaded_to));
        startup.start_next(None)
    }
}

impl<'a, P: PipelineTypes> Startup<'a, P> {
    /// Goes on once the actor before was started, or gives up if it could not be. The actors
    /// that were started before it are left running.
    pub fn stage_started(self, started: Result<P::Mailbox, P::Error>) -> (action: PipelineAction<
        'a,
        P,
    >)
        ensures
            action@ == proceed::<P>(self@, started),
    {
        match started {
            Ok(mailbox) => self.start_next(Some(mailbox)),
            Err(error) => PipelineAction::Failed(error),
        }
    }

    fn start_next(self, last_started: Option<P::Mailbox>) -> (action: PipelineAction<'a, P>)
        ensures
            action@ == next_start::<P>(self@, last_started),
    {
        let ghost before = self@;
        let Startup { mut pending, kill_switch } = self;
        if pending.len() > 0 {
            let stage = pending.remove(0);
            let rest = Startup { pending, kill_switch };
            assert(rest@.pending =~= before.pending.skip(1));
            PipelineAction::Start { stage, downstream: last_started, kill_switch, rest }
        } else {
            PipelineAction::Running
        }
    }
}

/// The actions from `action` on, where the attempts to start actors come out as `outcomes` says.
pub open spec fn run<P: PipelineTypes>(
    action: PipelineActionView<P>,
    outcomes: Seq<Result<P::Mailbox, P::Error>>,
) -> Seq<PipelineActionView<P>>
    decreases outcomes.len(),
{
    match action {
        PipelineActionView::Start { rest, .. } if outcomes.len() > 0 => {
            seq![action] + run(proceed(rest, outcomes[0]), outcomes.skip(1))
        },
        _ => seq![action],
    }
}

/// Whether the first `n` attempts succeed.
pub open spec fn succeed<P: PipelineTypes>(
    outcomes: Seq<Result<P::Mailbox, P::Error>>,
    n: int,
) -> bool {
    &&& 0 <= n <= outcomes.len()
    &&& forall|i: int| 0 <= i < n ==> (#[trigger] outcomes[i]) is Ok
}

/// The mailbox of the actor that was started just before attempt `i`.
pub open spec fn mailbox_before<P: PipelineTypes>(
    last_started: Option<P::Mailbox>,
    outcomes: Seq<Result<P::Mailbox, P::Error>>,
    i: int,
) -> Option<P::Mailbox> {
    if i == 0 {
        last_started
    } else {
        Some(outcomes[i - 1]->Ok_0)
    }
}

/// What is left of a startup once the first `i` actors are started.
pub open spec fn startup_after<P: PipelineTypes>(startup: StartupView<P>, i: int) -> StartupView<P> {
    StartupView { pending: startup.pending.skip(i), kill_switch: startup.kill_switch }
}

/// If no step fails, all five actors are started, each once, from the end of the pipeline to its
/// beginning, all under one kill switch and each with the mailbox of the actor started before it.
pub proof fn law_all_stages_are_started<P: PipelineTypes>(
    request: StorageRequestView<P>,
    storage: P::Storage,
    kill_switch: P::KillSwitch,
    outcomes: Seq<Result<P::Mailbox, P::Error>>,
)
    requires
        succeed::<P>(outcomes, 5),
    ensures
        ({
            let actions = run(first_action(request, Ok(storage), kill_switch), outcomes);
            &&& actions.len() == 6
            &&& forall|i: int|
                0 <= i < 5 ==> {
                    &&& (#[trigger] actions[i]) is Start
                    &&& actions[i]->stage == startup_order(request, storage)[i]
                    &&& actions[i]->downstream == mailbox_before::<P>(None, outcomes, i)
                    &&& actions[i]->kill_switch == kill_switch
                }
            &&& actions[5] == PipelineActionView::<P>::Running
        }),
{
    let startup = StartupView { pending: startup_order(request, storage), kill_switch };
    let actions = run(next_start(startup, None), outcomes);
    lemma_run(startup, None, outcomes, 5);
    assert(actions.skip(5).len() == 1);
    assert(actions[5] == actions.skip(5)[0]);
}

/// The actor that is started just before an actor is the one that it sends to. The publisher is
/// started first, and sends to none.
pub proof fn law_downstream_is_started_just_before<P: PipelineTypes>(
    request: StorageRequestView<P>,
    storage: P::Storage,
    i: int,
)
    requires
        0 <= i < startup_order(request, storage).len(),
    ensures
        startup_order(request, storage)[i].stage().downstream() == if i == 0 {
            None
        } else {
            Some(startup_order(request, storage)[i - 1].stage())
        },
{
}

/// An actor that cannot be started ends the startup with its error: the actors before it were
/// started, and none is started after it.
pub proof fn law_failure_ends_startup<P: PipelineTypes>(
    request: StorageRequestView<P>,
    storage: P::Storage,
    kill_switch: P::KillSwitch,
    outcomes: Seq<Result<P::Mailbox, P::Error>>,
    failing: int,
)
    requires
        0 <= failing < outcomes.len(),
        failing < startup_order(request, storage).len(),
        succeed::<P>(outcomes, failing),
        outcomes[failing] is Err,
    ensures
        ({
            let actions = run(first_action(request, Ok(storage), kill_switch), outcomes);
            &&& actions.len() == failing + 2
            &&& forall|i: int|
                0 <= i <= failing ==> {
                    &&& (#[trigger] actions[i]) is Start
                    &&& actions[i]->stage == startup_order(request, storage)[i]
                }
            &&& actions[failing + 1] == PipelineActionView::<P>::Failed(outcomes[failing]->Err_0)
        }),
{
    let startup = StartupView { pending: startup_order(request, storage), kill_switch };
    let actions = run(next_start(startup, None), outcomes);
    lemma_run(startup, None, outcomes, failing);
    let rest = run(
        next_start(startup_after(startup, failing), mailbox_before::<P>(None, outcomes, failing)),
        outcomes.skip(failing),
    );
    reveal_with_fuel(run, 2);
    assert(rest.len() == 2);
    assert(actions[failing] == rest[0]);
    assert(actions[failing + 1] == rest[1]);
}

/// A storage that cannot be resolved ends the startup with its error: nothing is started.
pub proof fn law_unresolved_storage_starts_nothing<P: PipelineTypes>(
    request: StorageRequestView<P>,
    error: P::Error,
    kill_switch: P::KillSwitch,
    outcomes: Seq<Result<P::Mailbox, P::Error>>,
)
    ensures
        run(first_action(request, Err(error), kill_switch), outcomes) == seq![
            PipelineActionView::<P>::Failed(error),
        ],
{
}

/// The pipeline of an index asks the metastore that it was given for that index, and resolves the
/// storage at the URI of the index. Its actors are then the publisher, the uploader, the packager,
/// the indexer and the source, in this order and no others, each given what it is to work with.
pub proof fn law_pipeline_is_put_together<'a, P: PipelineTypes>(
    index_id: String,
    metastore: &'a P::Metastore,
    metadata_request: MetadataRequest<'a, P>,
    index: PipelineIndex<P::IndexConfig>,
    storage_request: Result<StorageRequest<'a, P>, P::Error>,
    storage: P::Storage,
    kill_switch: &'a P::KillSwitch,
    action: PipelineAction<'a, P>,
)
    requires
        call_ensures(spawn_indexing_pipeline::<P>, (index_id, metastore), metadata_request),
        call_ensures(
            MetadataRequest::<P>::index_metadata_received,
            (metadata_request, Ok(index)),
            storage_request,
        ),
        storage_request matches Ok(request) ==> call_ensures(
            StorageRequest::<P>::storage_resolved,
            (request, Ok(storage), kill_switch),
            action,
        ),
    ensures
        metadata_request@.index_id == index_id@,
        metadata_request@.metastore == *metastore,
        storage_request is Ok,
        storage_request->Ok_0@.index_uri == index.index_uri@,
        ({
            &&& action matches PipelineAction::Start { stage, downstream, kill_switch: switch, rest }
            &&& stage matches StageSpec::Publisher { metastore: publishes_in }
            &&& *publishes_in == *metastore
            &&& downstream is None
            &&& *switch == *kill_switch
            &&& rest@.kill_switch == *kill_switch
            &&& rest@.pending.len() == 4
            &&& rest@.pending[0] matches StageSpecView::Uploader {
                metastore: stages_in,
                storage: uploads_to,
            }
            &&& stages_in == *metastore
            &&& uploads_to == storage
            &&& rest@.pending[1] is Packager
            &&& rest@.pending[2] matches StageSpecView::Indexer {
                index_id: indexed,
                index_config,
                indexing_directory,
                commit_policy,
            }
            &&& indexed == index_id@
            &&& index_config == index.index_config
            &&& indexing_directory is None
            &&& commit_policy == IndexerCommitPolicy::Default
            &&& rest@.pending[3] matches StageSpecView::Source { path }
            &&& path == "data/test_corpus.json"@
        }),
{
}

/// A metastore that does not answer, or a storage that cannot be resolved, ends the startup with
/// its error.
pub proof fn law_failed_request_ends_startup<'a, P: PipelineTypes>(
    metadata_request: MetadataRequest<'a, P>,
    no_index: P::Error,
    refused: Result<StorageRequest<'a, P>, P::Error>,
    storage_request: StorageRequest<'a, P>,
    no_storage: P::Error,
    kill_switch: &'a P::KillSwitch,
    action: PipelineAction<'a, P>,
)
    requires
        call_ensures(
            MetadataRequest::<P>::index_metadata_received,
            (metadata_request, Err(no_index)),
            refused,
        ),
        call_ensures(
            StorageRequest::<P>::storage_resolved,
            (storage_request, Err(no_storage), kill_switch),
            action,
        ),
    ensures
        refused is Err,
        refused->Err_0 == no_index,
        action matches PipelineAction::Failed(error) && error == no_storage,
{
}

/// Once an actor is started the next one is, with the mailbox of the actor just started and under
/// the same kill switch, and the others stay in order; once all are started the pipeline is
/// running. An actor that could not be started ends the startup with its error.
pub proof fn law_stage_started<'a, P: PipelineTypes>(
    startup: Startup<'a, P>,
    started: Result<P::Mailbox, P::Error>,
    action: PipelineAction<'a, P>,
)
    requires
        call_ensures(Startup::<P>::stage_started, (startup, started), action),
    ensures
        started matches Err(cause) ==> (action matches PipelineAction::Failed(error) && error == cause),
        started is Ok && startup@.pending.len() == 0 ==> action is Running,
        started is Ok && startup@.pending.len() > 0 ==> {
            &&& action matches PipelineAction::Start { stage, downstream, kill_switch, rest }
            &&& seq![stage@] + rest@.pending == startup@.pending
            &&& downstream == Some(started->Ok_0)
            &&& *kill_switch == startup@.kill_switch
            &&& rest@.kill_switch == startup@.kill_switch
        },
{
    if started is Ok && startup@.pending.len() > 0 {
        assert(seq![startup@.pending[0]] + startup@.pending.skip(1) =~= startup@.pending);
    }
}

/// The requests say what they are about, and a specification which actor it is of.
pub proof fn law_requests_say_what_they_are_about<'a, P: PipelineTypes>(
    metadata_request: MetadataRequest<'a, P>,
    index_id: &String,
    metastore: &'a P::Metastore,
    storage_request: StorageRequest<'a, P>,
    index_uri: &String,
    spec: StageSpec<'a, P>,
    stage: PipelineStage,
)
    requires
        call_ensures(MetadataRequest::<P>::index_id, (&metadata_request,), index_id),
        call_ensures(MetadataRequest::<P>::metastore, (&metadata_request,), metastore),
        call_ensures(StorageRequest::<P>::index_uri, (&storage_request,), index_uri),
        call_ensures(StageSpec::<P>::stage, (&spec,), stage),
    ensures
        index_id@ == metadata_request@.index_id,
        *metastore == metadata_request@.metastore,
        index_uri@ == storage_request@.index_uri,
        spec is Publisher <==> stage == PipelineStage::Publisher,
        spec is Uploader <==> stage == PipelineStage::Uploader,
        spec is Packager <==> stage == PipelineStage::Packager,
        spec is Indexer <==> stage == PipelineStage::Indexer,
        spec is Source <==> stage == PipelineStage::Source,
{
}

/// What the specifications are stated about is what the actors are made of.
pub proof fn law_specifications_hold_what_they_say<'a, P: PipelineTypes>(spec: StageSpec<'a, P>)
    ensures
        match spec {
            StageSpec::Publisher { metastore } => spec@ is Publisher && spec@->Publisher_metastore
                == *metastore,
            StageSpec::Uploader { metastore, storage } => spec@ is Uploader
                && spec@->Uploader_metastore == *metastore && spec@->storage == storage,
            StageSpec::Packager => spec@ is Packager,
            StageSpec::Indexer { index_id, index_config, indexing_directory, commit_policy } => {
                &&& spec@ is Indexer
                &&& spec@->index_id == index_id@
                &&& spec@->index_config == index_config
                &&& spec@->indexing_directory is Some <==> indexing_directory is Some
                &&& indexing_directory matches Some(directory) ==> spec@->indexing_directory->0
                    == directory@
                &&& spec@->commit_policy == commit_policy
            },
            StageSpec::Source { path } => spec@ is Source && spec@->path == path@,
        },
{
}

proof fn lemma_run<P: PipelineTypes>(
    startup: StartupView<P>,
    last_started: Option<P::Mailbox>,
    outcomes: Seq<Result<P::Mailbox, P::Error>>,
    n: int,
)
    requires
        succeed::<P>(outcomes, n),
        n <= startup.pending.len(),
    ensures
        ({
            let actions = run(next_start(startup, last_started), outcomes);
            &&& actions.len() >= n
            &&& forall|i: int|
                0 <= i < n ==> #[trigger] actions[i] == next_start(
                    startup_after(startup, i),
                    mailbox_before::<P>(last_started, outcomes, i),
                )
            &&& actions.skip(n) == run(
                next_start(
                    startup_after(startup, n),
                    mailbox_before::<P>(last_started, outcomes, n),
                ),
                outcomes.skip(n),
            )
        }),
    decreases n,
{
    let first = next_start(startup, last_started);
    let actions = run(first, outcomes);
    assert(startup_after(startup, 0) =~= startup);
    assert(outcomes.skip(0) =~= outcomes);
    if n == 0 {
        assert(actions.skip(0) =~= actions);
    } else {
        let rest = startup_after(startup, 1);
        let later = outcomes.skip(1);
        let mailbox = Some(outcomes[0]->Ok_0);
        assert(later.len() == outcomes.len() - 1);
        assert forall|i: int| 0 <= i < n - 1 implies (#[trigger] later[i]) is Ok by {
            assert(later[i] == outcomes[i + 1]);
        }
        lemma_run(rest, mailbox, later, n - 1);
        let following = run(next_start(rest, mailbox), later);
        assert(actions == seq![first] + following);
        assert forall|i: int| 0 <= i < n implies #[trigger] actions[i] == next_start(
            startup_after(startup, i),
            mailbox_before::<P>(last_started, outcomes, i),
        ) by {
            if i > 0 {
                assert(actions[i] == following[i - 1]);
                assert(startup_after(rest, i - 1) =~= startup_after(startup, i));
            }
        }
        assert(actions.skip(n) =~= following.skip(n - 1));
        assert(startup_after(rest, n - 1) =~= startup_after(startup, n));
        assert(later.skip(n - 1) =~= outcomes.skip(n));
    }
}

} // verus!
