//! The consumer of one shard of a stream.
//!
//! The consumer decides, the caller acts: each method answers with a [`ShardConsumerAction`],
//! and what came of the action is handed to the method that goes with it.

use crate::json;
use crate::json::{JsonScalar, JsonScalarView};
use vstd::prelude::*;

verus! {

/// How long the consumer waits between two requests for records.
pub const LOOP_INTERVAL_MILLIS: u64 = 210;

/// A record of a shard.
#[derive(Debug, PartialEq, Eq)]
pub struct Record {
    /// When the record arrived in the stream, in seconds since the epoch: the bits of a
    /// double-precision number.
    pub approximate_arrival_timestamp: Option<u64>,
    pub data: Vec<u8>,
    pub encryption_type: Option<String>,
    pub partition_key: String,
    /// Identifies the record within its shard.
    pub sequence_number: String,
}

/// A shard that came out of a merge or a split of other shards.
#[derive(Debug, PartialEq, Eq)]
pub struct ChildShard {
    /// The two shards that were merged, or the one that was split.
    pub parent_shards: Vec<String>,
    pub shard_id: String,
}

/// The answer to a request for records.
#[derive(Debug, PartialEq, Eq)]
pub struct GetRecordsOutput {
    pub child_shards: Option<Vec<ChildShard>>,
    /// How far the records are from the tip of the shard; zero once the tip is reached.
    pub millis_behind_latest: Option<i64>,
    /// Where to go on reading; absent once the shard is closed and read to its end.
    pub next_shard_iterator: Option<String>,
    pub records: Vec<Record>,
}

/// A request for the position from which to start reading a shard.
#[derive(Debug, PartialEq, Eq)]
pub struct ShardIteratorRequest {
    pub stream_name: String,
    pub shard_id: String,
    pub from_sequence_number_exclusive: Option<String>,
}

/// What the consumer tells the rest of the indexing pipeline.
#[derive(Debug)]
pub enum ShardConsumerMessage {
    /// The shard was merged or split and has one child (merge) or two children (split).
    ChildShards(Vec<String>),
    /// Records of the shard.
    Records { shard_id: String, records: Vec<Record>, lag_millis: Option<i64> },
    /// The shard is closed after a merge or a split. There are no new records available.
    ShardClosed(String),
    /// The consumer has reached the latest record of the shard and stops there.
    ShardEOF(String),
}

/// The mathematical value of a [`ShardConsumerMessage`].
#[verifier::ext_equal]
pub enum ShardConsumerMessageView {
    ChildShards(Seq<Seq<char>>),
    Records { shard_id: Seq<char>, records: Seq<Record>, lag_millis: Option<i64> },
    ShardClosed(Seq<char>),
    ShardEOF(Seq<char>),
}

impl View for ShardConsumerMessage {
    type V = ShardConsumerMessageView;

    open spec fn view(&self) -> ShardConsumerMessageView {
        match *self {
            ShardConsumerMessage::ChildShards(shard_ids) => ShardConsumerMessageView::ChildShards(
                texts(shard_ids@),
            ),
            ShardConsumerMessage::Records { shard_id, records, lag_millis } => {
                ShardConsumerMessageView::Records { shard_id: shard_id@, records: records@, lag_millis }
            },
            ShardConsumerMessage::ShardClosed(shard_id) => ShardConsumerMessageView::ShardClosed(
                shard_id@,
            ),
            ShardConsumerMessage::ShardEOF(shard_id) => ShardConsumerMessageView::ShardEOF(shard_id@),
        }
    }
}

/// Why the consumer stopped.
#[derive(Debug, PartialEq, Eq)]
pub enum ActorExitStatus<E> {
    /// There is nothing left to do.
    Success,
    /// Something that the consumer asked for failed.
    Failure(E),
}

/// What the consumer does once its messages are sent.
#[derive(Clone, Copy, Debug, PartialEq, Eq, Structural)]
pub enum Completion {
    /// Ask for records again, after a while.
    Loop,
    /// Stop.
    Stop,
}

/// Messages that are still to be sent, in this order, and what follows.
pub struct Delivery {
    messages: Vec<ShardConsumerMessage>,
    completion: Completion,
}

/// The mathematical value of a [`Delivery`].
#[verifier::ext_equal]
pub struct DeliveryView {
    pub messages: Seq<ShardConsumerMessageView>,
    pub completion: Completion,
}

impl View for Delivery {
    type V = DeliveryView;

    closed spec fn view(&self) -> DeliveryView {
        DeliveryView { messages: message_views(self.messages@), completion: self.completion }
    }
}

/// What the caller of the consumer has to do next.
pub enum ShardConsumerAction<E> {
    /// Request records, and hand the answer to [`ShardConsumer::records_received`].
    GetRecords { shard_iterator: String },
    /// Send the message, and hand the outcome to [`Delivery::message_sent`].
    Send { message: ShardConsumerMessage, rest: Delivery },
    /// Call [`ShardConsumer::process_message`] after the delay.
    ScheduleLoop { delay_millis: u64 },
    /// Stop the consumer.
    Exit(ActorExitStatus<E>),
}

/// The mathematical value of a [`ShardConsumerAction`].
#[verifier::ext_equal]
pub enum ShardConsumerActionView<E> {
    GetRecords { shard_iterator: Seq<char> },
    Send { message: ShardConsumerMessageView, rest: DeliveryView },
    ScheduleLoop { delay_millis: nat },
    Exit(ActorExitStatus<E>),
}

impl<E> View for ShardConsumerAction<E> {
    type V = ShardConsumerActionView<E>;

    open spec fn view(&self) -> ShardConsumerActionView<E> {
        match *self {
            ShardConsumerAction::GetRecords { shard_iterator } => ShardConsumerActionView::GetRecords {
                shard_iterator: shard_iterator@,
            },
            ShardConsumerAction::Send { message, rest } => ShardConsumerActionView::Send {
                message: message@,
                rest: rest@,
            },
            ShardConsumerAction::ScheduleLoop { delay_millis } => {
                ShardConsumerActionView::ScheduleLoop { delay_millis: delay_millis as nat }
            },
            ShardConsumerAction::Exit(status) => ShardConsumerActionView::Exit(status),
        }
    }
}

/// The characters of each of the strings.
pub open spec fn texts(strings: Seq<String>) -> Seq<Seq<char>> {
    strings.map_values(|string: String| string@)
}

/// The characters of the string, if there is one.
pub open spec fn text(string: Option<String>) -> Option<Seq<char>> {
    match string {
        Some(string) => Some(string@),
        None => None,
    }
}

/// The views of the messages.
pub open spec fn message_views(messages: Seq<ShardConsumerMessage>) -> Seq<ShardConsumerMessageView> {
    messages.map_values(|message: ShardConsumerMessage| message@)
}

/// How far the consumer has come.
pub struct ShardConsumerState {
    /// The sequence number of the last record transferred.
    pub current_sequence_number: Option<String>,
    /// Number of bytes transferred by the consumer.
    pub num_bytes_transferred: u64,
    /// Number of records transferred by the consumer.
    pub num_records_transferred: u64,
    /// Where to go on reading.
    pub next_shard_iterator: Option<String>,
}

/// The mathematical value of a [`ShardConsumerState`].
pub struct ShardConsumerStateView {
    pub current_sequence_number: Option<Seq<char>>,
    pub num_bytes_transferred: nat,
    pub num_records_transferred: nat,
    pub next_shard_iterator: Option<Seq<char>>,
}

impl View for ShardConsumerState {
    type V = ShardConsumerStateView;

    open spec fn view(&self) -> ShardConsumerStateView {
        ShardConsumerStateView {
            current_sequence_number: text(self.current_sequence_number),
            num_bytes_transferred: self.num_bytes_transferred as nat,
            num_records_transferred: self.num_records_transferred as nat,
            next_shard_iterator: text(self.next_shard_iterator),
        }
    }
}

impl ShardConsumerStateView {
    /// The state of a consumer that has not read anything.
    pub open spec fn initial() -> ShardConsumerStateView {
        ShardConsumerStateView {
            current_sequence_number: None,
            num_bytes_transferred: 0,
            num_records_transferred: 0,
            next_shard_iterator: None,
        }
    }

    /// The state with another position to go on reading from.
    pub open spec fn at(self, shard_iterator: Option<Seq<char>>) -> ShardConsumerStateView {
        ShardConsumerStateView { next_shard_iterator: shard_iterator, ..self }
    }

    /// The state once the records of `output` are taken over.
    pub open spec fn advanced(self, output: GetRecordsOutput) -> ShardConsumerStateView {
        ShardConsumerStateView {
            current_sequence_number: if output.records@.len() == 0 {
                self.current_sequence_number
            } else {
                Some(output.records@.last().sequence_number@)
            },
            num_bytes_transferred: self.num_bytes_transferred + total_data_len(output.records@),
            num_records_transferred: self.num_records_transferred + output.records@.len(),
            next_shard_iterator: text(output.next_shard_iterator),
        }
    }

    /// Whether the counters can take the records of `output`.
    pub open spec fn has_room_for(self, output: GetRecordsOutput) -> bool {
        &&& self.num_bytes_transferred + total_data_len(output.records@) <= u64::MAX
        &&& self.num_records_transferred + output.records@.len() <= u64::MAX
    }
}

impl Default for ShardConsumerState {
    fn default() -> (state: Self)
        ensures
            state@ == ShardConsumerStateView::initial(),
    {
        ShardConsumerState {
            current_sequence_number: None,
            num_bytes_transferred: 0,
            num_records_transferred: 0,
            next_shard_iterator: None,
        }
    }
}

/// The number of data bytes in the records.
pub open spec fn total_data_len(records: Seq<Record>) -> nat
    decreases records.len(),
{
    if records.len() == 0 {
        0
    } else {
        total_data_len(records.drop_last()) + records.last().data@.len()
    }
}

/// Whether the consumer of `shard_id` is the one to announce the child: of the shards that were
/// merged into the child, the first does.
pub open spec fn announces(shard_id: Seq<char>, child: ChildShard) -> bool {
    child.parent_shards@.len() > 0 && child.parent_shards@[0]@ == shard_id
}

/// The ids of the children that the consumer of `shard_id` announces.
pub open spec fn announced_children(shard_id: Seq<char>, children: Seq<ChildShard>) -> Seq<Seq<char>> {
    children.filter(|child: ChildShard| announces(shard_id, child)).map_values(
        |child: ChildShard| child.shard_id@,
    )
}

/// The message about the records of `output`, if there are any.
pub open spec fn records_message(shard_id: Seq<char>, output: GetRecordsOutput) -> Seq<
    ShardConsumerMessageView,
> {
    if output.records@.len() == 0 {
        Seq::empty()
    } else {
        seq![
            ShardConsumerMessageView::Records {
                shard_id,
                records: output.records@,
                lag_millis: output.millis_behind_latest,
            },
        ]
    }
}

/// The message about the children of the shard, if the consumer announces any.
pub open spec fn children_message(shard_id: Seq<char>, output: GetRecordsOutput) -> Seq<
    ShardConsumerMessageView,
> {
    match output.child_shards {
        Some(children) if announced_children(shard_id, children@).len() > 0 => {
            seq![ShardConsumerMessageView::ChildShards(announced_children(shard_id, children@))]
        },
        _ => Seq::empty(),
    }
}

/// Whether the answer reaches the tip of the shard and the consumer is to stop there.
pub open spec fn reaches_eof(eof_enabled: bool, output: GetRecordsOutput) -> bool {
    eof_enabled && output.millis_behind_latest == Some(0i64)
}

/// What the consumer of `shard_id` makes of `output`: it passes the records on, announces the
/// children of the shard, and at the tip of the shard says so and stops if it is to stop there.
pub open spec fn delivery_of(shard_id: Seq<char>, eof_enabled: bool, output: GetRecordsOutput) -> DeliveryView {
    let messages = records_message(shard_id, output) + children_message(shard_id, output);
    if reaches_eof(eof_enabled, output) {
        DeliveryView {
            messages: messages.push(ShardConsumerMessageView::ShardEOF(shard_id)),
            completion: Completion::Stop,
        }
    } else {
        DeliveryView { messages, completion: Completion::Loop }
    }
}

/// What the consumer of a closed shard has to say.
pub open spec fn closing_delivery(shard_id: Seq<char>) -> DeliveryView {
    DeliveryView {
        messages: seq![ShardConsumerMessageView::ShardClosed(shard_id)],
        completion: Completion::Stop,
    }
}

/// The action that a delivery calls for: send the first message, or complete once all are sent.
pub open spec fn next_action<E>(delivery: DeliveryView) -> ShardConsumerActionView<E> {
    if delivery.messages.len() > 0 {
        ShardConsumerActionView::Send {
            message: delivery.messages[0],
            rest: DeliveryView { messages: delivery.messages.skip(1), ..delivery },
        }
    } else {
        match delivery.completion {
            Completion::Loop => ShardConsumerActionView::ScheduleLoop {
                delay_millis: LOOP_INTERVAL_MILLIS as nat,
            },
            Completion::Stop => ShardConsumerActionView::Exit(ActorExitStatus::Success),
        }
    }
}

/// The action that a request to process the shard calls for: read on where there is a position
/// to read from, else report the shard as closed.
pub open spec fn loop_action<E>(shard_id: Seq<char>, shard_iterator: Option<Seq<char>>) -> ShardConsumerActionView<E> {
    match shard_iterator {
        Some(shard_iterator) => ShardConsumerActionView::GetRecords { shard_iterator },
        None => next_action(closing_delivery(shard_id)),
    }
}

impl Delivery {
    /// The next step of the delivery.
    fn next<E>(self) -> (action: ShardConsumerAction<E>)
        ensures
            action@ == next_action::<E>(self@),
    {
        let Delivery { mut messages, completion } = self;
        if messages.len() > 0 {
            let ghost before = messages@;
            let message = messages.remove(0);
            assert(message_views(messages@) =~= message_views(before).skip(1));
            ShardConsumerAction::Send { message, rest: Delivery { messages, completion } }
        } else {
            match completion {
                Completion::Loop => ShardConsumerAction::ScheduleLoop {
                    delay_millis: LOOP_INTERVAL_MILLIS,
                },
                Completion::Stop => ShardConsumerAction::Exit(ActorExitStatus::Success),
            }
        }
    }

    /// Goes on once the message before was sent, or gives up if it could not be.
    pub fn message_sent<E>(self, sent: Result<(), E>) -> (action: ShardConsumerAction<E>)
        ensures
            action@ == match sent {
                Ok(()) => next_action::<E>(self@),
                Err(error) => ShardConsumerActionView::Exit(ActorExitStatus::Failure(error)),
            },
    {
        match sent {
            Ok(()) => self.next(),
            Err(error) => ShardConsumerAction::Exit(ActorExitStatus::Failure(error)),
        }
    }
}

/// The consumer of one shard.
pub struct ShardConsumer {
    stream_name: String,
    shard_id: String,
    /// Sequence number of the last record processed. Consumption of the shard is resumed right
    /// after this sequence number.
    from_sequence_number_exclusive: Option<String>,
    /// When this value is set to true, the consumer stops after reaching the last (most recent)
    /// record in the shard.
    eof_enabled: bool,
    state: ShardConsumerState,
}

/// The mathematical value of a [`ShardConsumer`].
pub struct ShardConsumerView {
    pub stream_name: Seq<char>,
    pub shard_id: Seq<char>,
    pub from_sequence_number_exclusive: Option<Seq<char>>,
    pub eof_enabled: bool,
    pub state: ShardConsumerStateView,
}

impl View for ShardConsumer {
    type V = ShardConsumerView;

    closed spec fn view(&self) -> ShardConsumerView {
        ShardConsumerView {
            stream_name: self.stream_name@,
            shard_id: self.shard_id@,
            from_sequence_number_exclusive: text(self.from_sequence_number_exclusive),
            eof_enabled: self.eof_enabled,
            state: self.state@,
        }
    }
}

impl ShardConsumerView {
    /// The same consumer in another state.
    pub open spec fn in_state(self, state: ShardConsumerStateView) -> ShardConsumerView {
        ShardConsumerView { state, ..self }
    }

    /// What an observer of the consumer gets to see.
    pub open spec fn observable_members(self) -> Map<Seq<char>, JsonScalarView> {
        Map::<Seq<char>, JsonScalarView>::empty()
            .insert("stream_name"@, JsonScalarView::Text(self.stream_name))
            .insert("shard_id"@, JsonScalarView::Text(self.shard_id))
            .insert(
                "current_sequence_number"@,
                match self.state.current_sequence_number {
                    Some(sequence_number) => JsonScalarView::Text(sequence_number),
                    None => JsonScalarView::Null,
                },
            )
            .insert(
                "num_bytes_transferred"@,
                JsonScalarView::Number(self.state.num_bytes_transferred),
            )
            .insert(
                "num_records_transferred"@,
                JsonScalarView::Number(self.state.num_records_transferred),
            )
    }
}

impl ShardConsumer {
    /// A consumer that has not read anything yet.
    pub fn new(
        stream_name: String,
        shard_id: String,
        from_sequence_number_exclusive: Option<String>,
        eof_enabled: bool,
    ) -> (consumer: ShardConsumer)
        ensures
            consumer@ == (ShardConsumerView {
                stream_name: stream_name@,
                shard_id: shard_id@,
                from_sequence_number_exclusive: text(from_sequence_number_exclusive),
                eof_enabled,
                state: ShardConsumerStateView::initial(),
            }),
    {
        ShardConsumer {
            stream_name,
            shard_id,
            from_sequence_number_exclusive,
            eof_enabled,
            state: ShardConsumerState::default(),
        }
    }

    /// The name of the actor.
    pub fn name(&self) -> (name: String)
        ensures
            name@ == "KinesisShardConsumer"@,
    {
        "KinesisShardConsumer".to_owned()
    }

    /// What an observer of the consumer gets to see: a JSON object.
    pub fn observable_state(&self) -> (state: serde_json::Value)
        ensures
            json::json_members(state) == Some(self@.observable_members()),
    {
        let current_sequence_number = match &self.state.current_sequence_number {
            Some(sequence_number) => JsonScalar::Text(sequence_number.clone()),
            None => JsonScalar::Null,
        };
        let mut state = json::empty_object();
        json::set_member(&mut state, "stream_name", JsonScalar::Text(self.stream_name.clone()));
        json::set_member(&mut state, "shard_id", JsonScalar::Text(self.shard_id.clone()));
        json::set_member(&mut state, "current_sequence_number", current_sequence_number);
        json::set_member(
            &mut state,
            "num_bytes_transferred",
            JsonScalar::Number(self.state.num_bytes_transferred),
        );
        json::set_member(
            &mut state,
            "num_records_transferred",
            JsonScalar::Number(self.state.num_records_transferred),
        );
        state
    }

    /// Begins to consume: the position to start from has to be requested, and the answer handed
    /// to [`ShardConsumer::shard_iterator_received`].
    pub fn initialize(&self) -> (request: ShardIteratorRequest)
        ensures
            request.stream_name@ == self@.stream_name,
            request.shard_id@ == self@.shard_id,
            text(request.from_sequence_number_exclusive) == self@.from_sequence_number_exclusive,
    {
        let from_sequence_number_exclusive: Option<String> = match &self.from_sequence_number_exclusive {
            Some(sequence_number) => Some(sequence_number.clone()),
            None => None,
        };
        ShardIteratorRequest {
            stream_name: self.stream_name.clone(),
            shard_id: self.shard_id.clone(),
            from_sequence_number_exclusive,
        }
    }

    /// Goes on from the position that the shard was found to start at, or gives up if the
    /// request for it failed.
    pub fn shard_iterator_received<E>(&mut self, shard_iterator: Result<Option<String>, E>) -> (action:
        ShardConsumerAction<E>)
        ensures
            match shard_iterator {
                Ok(shard_iterator) => {
                    &&& final(self)@ == old(self)@.in_state(old(self)@.state.at(None))
                    &&& action@ == loop_action::<E>(old(self)@.shard_id, text(shard_iterator))
                },
                Err(error) => {
                    &&& final(self)@ == old(self)@
                    &&& action@ == ShardConsumerActionView::Exit(ActorExitStatus::Failure(error))
                },
            },
    {
        match shard_iterator {
            Ok(shard_iterator) => {
                self.state.next_shard_iterator = shard_iterator;
                self.process_message()
            },
            Err(error) => ShardConsumerAction::Exit(ActorExitStatus::Failure(error)),
        }
    }

    /// Asks for the next records of the shard, or reports the shard as closed.
    pub fn process_message<E>(&mut self) -> (action: ShardConsumerAction<E>)
        ensures
            final(self)@ == old(self)@.in_state(old(self)@.state.at(None)),
            action@ == loop_action::<E>(old(self)@.shard_id, old(self)@.state.next_shard_iterator),
    {
        match self.state.next_shard_iterator.take() {
            Some(shard_iterator) => ShardConsumerAction::GetRecords { shard_iterator },
            None => {
                let mut messages: Vec<ShardConsumerMessage> = Vec::new();
                messages.push(ShardConsumerMessage::ShardClosed(self.shard_id.clone()));
                let delivery = Delivery { messages, completion: Completion::Stop };
                assert(delivery@ =~= closing_delivery(self@.shard_id));
                delivery.next()
            },
        }
    }

    /// Whether the counters of the consumer can take the records of `output`.
    pub fn has_room_for(&self, output: &GetRecordsOutput) -> (room: bool)
        ensures
            room == self@.state.has_room_for(*output),
    {
        let records: u64 = output.records.len() as u64;
        if u64::MAX - self.state.num_records_transferred < records {
            return false;
        }
        let mut bytes: u64 = self.state.num_bytes_transferred;
        let mut i: usize = 0;
        while i < output.records.len()
            invariant
                i <= output.records@.len(),
                bytes == self.state.num_bytes_transferred + total_data_len(
                    output.records@.take(i as int),
                ),
            decreases output.records@.len() - i,
        {
            proof {
                lemma_total_data_len_step(output.records@, i as int);
            }
            match bytes.checked_add(output.records[i].data.len() as u64) {
                Some(sum) => {
                    bytes = sum;
                },
                None => {
                    proof {
                        lemma_total_data_len_grows(output.records@, i + 1);
                    }
                    return false;
                },
            }
            i += 1;
        }
        assert(output.records@.take(output.records@.len() as int) =~= output.records@);
        true
    }

    /// Takes over the answer to a request for records, or gives up if the request failed.
    pub fn records_received<E>(&mut self, output: Result<GetRecordsOutput, E>) -> (action:
        ShardConsumerAction<E>)
        requires
            output matches Ok(output) ==> old(self)@.state.has_room_for(output),
        ensures
            match output {
                Ok(output) => {
                    &&& final(self)@ == old(self)@.in_state(old(self)@.state.advanced(output))
                    &&& action@ == next_action::<E>(
                        delivery_of(old(self)@.shard_id, old(self)@.eof_enabled, output),
                    )
                },
                Err(error) => {
                    &&& final(self)@ == old(self)@
                    &&& action@ == ShardConsumerActionView::Exit(ActorExitStatus::Failure(error))
                },
            },
    {
        let output = match output {
            Ok(output) => output,
            Err(error) => {
                return ShardConsumerAction::Exit(ActorExitStatus::Failure(error));
            },
        };
        let ghost received = output;
        let GetRecordsOutput { child_shards, millis_behind_latest, next_shard_iterator, records } = output;
        self.state.next_shard_iterator = next_shard_iterator;
        let mut messages: Vec<ShardConsumerMessage> = Vec::new();
        if records.len() > 0 {
            self.take_over(&records);
            messages.push(
                ShardConsumerMessage::Records {
                    shard_id: self.shard_id.clone(),
                    records,
                    lag_millis: millis_behind_latest,
                },
            );
        }
        assert(message_views(messages@) =~= records_message(self@.shard_id, received));
        let ghost about_records = message_views(messages@);
        if let Some(children) = child_shards {
            let shard_ids = self.children_to_announce(&children);
            if shard_ids.len() > 0 {
                messages.push(ShardConsumerMessage::ChildShards(shard_ids));
            }
        }
        assert(message_views(messages@) =~= about_records + children_message(self@.shard_id, received));
        let ghost about_children = message_views(messages@);
        let at_tip = match millis_behind_latest {
            Some(millis) => millis == 0,
            None => false,
        };
        let mut completion = Completion::Loop;
        if self.eof_enabled && at_tip {
            messages.push(ShardConsumerMessage::ShardEOF(self.shard_id.clone()));
            completion = Completion::Stop;
            assert(message_views(messages@) =~= about_children.push(
                ShardConsumerMessageView::ShardEOF(self@.shard_id),
            ));
        }
        let delivery = Delivery { messages, completion };
        assert(delivery@ =~= delivery_of(self@.shard_id, self@.eof_enabled, received));
        delivery.next()
    }

    /// Counts the records and notes the last of them.
    fn take_over(&mut self, records: &Vec<Record>)
        requires
            records@.len() > 0,
            old(self)@.state.num_bytes_transferred + total_data_len(records@) <= u64::MAX,
            old(self)@.state.num_records_transferred + records@.len() <= u64::MAX,
        ensures
            final(self)@ == old(self)@.in_state(
                ShardConsumerStateView {
                    current_sequence_number: Some(records@.last().sequence_number@),
                    num_bytes_transferred: old(self)@.state.num_bytes_transferred + total_data_len(
                        records@,
                    ),
                    num_records_transferred: old(self)@.state.num_records_transferred
                        + records@.len(),
                    ..old(self)@.state
                },
            ),
    {
        let last: usize = records.len() - 1;
        let mut bytes: u64 = 0;
        let mut i: usize = 0;
        while i < records.len()
            invariant
                i <= records@.len(),
                total_data_len(records@) <= u64::MAX,
                bytes == total_data_len(records@.take(i as int)),
            decreases records@.len() - i,
        {
            proof {
                lemma_total_data_len_step(records@, i as int);
                lemma_total_data_len_grows(records@, i + 1);
            }
            bytes += records[i].data.len() as u64;
            i += 1;
        }
        assert(records@.take(records@.len() as int) =~= records@);
        self.state.current_sequence_number = Some(records[last].sequence_number.clone());
        self.state.num_bytes_transferred += bytes;
        self.state.num_records_transferred += records.len() as u64;
    }

    /// The ids of the children that this consumer announces. When two shards are merged, both
    /// consumers learn of the child and only that of the first parent announces it.
    fn children_to_announce(&self, children: &Vec<ChildShard>) -> (shard_ids: Vec<String>)
        ensures
            texts(shard_ids@) == announced_children(self@.shard_id, children@),
    {
        let ghost announced = |child: ChildShard| announces(self@.shard_id, child);
        let mut shard_ids: Vec<String> = Vec::new();
        let mut i: usize = 0;
        proof {
            reveal(Seq::filter);
            assert(texts(shard_ids@) =~= announced_children(self@.shard_id, children@.take(0)));
        }
        while i < children.len()
            invariant
                i <= children@.len(),
                announced == (|child: ChildShard| announces(self@.shard_id, child)),
                texts(shard_ids@) == announced_children(self@.shard_id, children@.take(i as int)),
            decreases children@.len() - i,
        {
            let ghost before = texts(shard_ids@);
            let child = &children[i];
            if child.parent_shards.len() > 0 && child.parent_shards[0] == self.shard_id {
                shard_ids.push(child.shard_id.clone());
                assert(texts(shard_ids@) =~= before.push(child.shard_id@));
            }
            proof {
                reveal(Seq::filter);
                let seen = children@.take(i + 1);
                assert(seen.drop_last() =~= children@.take(i as int));
                assert(seen.last() == *child);
                if announced(*child) {
                    assert(announced_children(self@.shard_id, seen) =~= before.push(child.shard_id@));
                } else {
                    assert(announced_children(self@.shard_id, seen) =~= before);
                }
            }
            i += 1;
        }
        assert(children@.take(children@.len() as int) =~= children@);
        shard_ids
    }
}

proof fn lemma_total_data_len_step(records: Seq<Record>, i: int)
    requires
        0 <= i < records.len(),
    ensures
        total_data_len(records.take(i + 1)) == total_data_len(records.take(i)) + records[i].data@.len(),
{
    assert(records.take(i + 1).drop_last() =~= records.take(i));
}

proof fn lemma_total_data_len_grows(records: Seq<Record>, i: int)
    requires
        0 <= i <= records.len(),
    ensures
        total_data_len(records.take(i)) <= total_data_len(records),
    decreases records.len() - i,
{
    if i < records.len() {
        lemma_total_data_len_step(records, i);
        lemma_total_data_len_grows(records, i + 1);
    } else {
        assert(records.take(i) =~= records);
    }
}

} // verus!
